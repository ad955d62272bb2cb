use rusterizer::space::{
    Any2D, CameraSpace, ClipSpace, PrintableType, ScreenSpace, WorldSpace, NDC,
};

#[test]
fn space_names() {
    assert_eq!(<Any2D as PrintableType>::space_name(), "Any2D");
    assert_eq!(<WorldSpace as PrintableType>::space_name(), "WorldSpace");
    assert_eq!(<CameraSpace as PrintableType>::space_name(), "CameraSpace");
    assert_eq!(<ClipSpace as PrintableType>::space_name(), "ClipSpace");
    assert_eq!(<NDC as PrintableType>::space_name(), "NDC");
    assert_eq!(<ScreenSpace as PrintableType>::space_name(), "ScreenSpace");
}
