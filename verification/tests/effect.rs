use sycadrop::DropEffect;

#[test]
fn as_js_names_every_effect() {
    assert_eq!(DropEffect::NoDrop.as_js(), "none");
    assert_eq!(DropEffect::Copy.as_js(), "copy");
    assert_eq!(DropEffect::CopyLink.as_js(), "copyLink");
    assert_eq!(DropEffect::CopyMove.as_js(), "copyMove");
    assert_eq!(DropEffect::Link.as_js(), "link");
    assert_eq!(DropEffect::LinkMove.as_js(), "linkMove");
    assert_eq!(DropEffect::Move.as_js(), "move");
    assert_eq!(DropEffect::All.as_js(), "all");
}

#[test]
fn default_allows_every_effect() {
    assert_eq!(DropEffect::default(), DropEffect::All);
}
