use moveref::new::by;
use moveref::Emplace;
use std::rc::Rc;
use std::sync::Arc;

#[test]
fn arc() {
    const VAL: u8 = 128;
    let new = by::<u8, _>(move || VAL);
    let out = <Arc<_> as Emplace<_>>::emplace(new);
    assert_eq!(VAL, *out);
}

#[test]
fn emplace_box() {
    const VAL: u8 = 128;
    let new = by::<u8, _>(move || VAL);
    let out = <Box<_> as Emplace<_>>::emplace(new);
    assert_eq!(VAL, *out);
}

#[test]
fn rc() {
    const VAL: u8 = 128;
    let new = by::<u8, _>(move || VAL);
    let out = <Rc<_> as Emplace<_>>::emplace(new);
    assert_eq!(VAL, *out);
}
