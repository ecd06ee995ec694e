use rs_ddraw::state::DDrawState;

#[test]
fn ready() {
    let st = DDrawState::new();
    assert_eq!(st.width, 640);
    println!("it works!")
}
