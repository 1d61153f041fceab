use rpgpie_sop::error::SopError;
use rpgpie_sop::unwrap::{unwrap_layers, InlineDetach, LayerKind, Step, Unwrapper};

fn nested(k: usize) -> Vec<LayerKind> {
    let mut v = vec![LayerKind::Compressed; k];
    v.push(LayerKind::Literal);
    v
}

#[test]
fn ten_compression_layers_unwrap() {
    assert_eq!(unwrap_layers(&nested(10), true), Ok((10, vec![])));
}

#[test]
fn eleven_compression_layers_fail() {
    assert_eq!(unwrap_layers(&nested(11), true), Err(SopError::BadData));
}

#[test]
fn signature_layers_are_recorded() {
    let layers = vec![
        LayerKind::Signed,
        LayerKind::Compressed,
        LayerKind::Signed,
        LayerKind::Literal,
    ];
    assert_eq!(InlineDetach::new().message(&layers), Ok((3, vec![0, 2])));
}

#[test]
fn detach_rejects_encryption() {
    let layers = vec![LayerKind::Encrypted, LayerKind::Literal];
    assert_eq!(InlineDetach::new().message(&layers), Err(SopError::BadData));
    assert_eq!(unwrap_layers(&layers, true), Ok((1, vec![])));
}

#[test]
fn message_without_literal_is_malformed() {
    assert_eq!(unwrap_layers(&vec![LayerKind::Compressed], true), Err(SopError::BadData));
    assert_eq!(unwrap_layers(&vec![], true), Err(SopError::BadData));
}

#[test]
fn stepwise_unwrapping() {
    let mut u = Unwrapper::new(false);
    assert_eq!(u.step(LayerKind::Compressed), Step::Descend);
    assert_eq!(u.step(LayerKind::Signed), Step::Descend);
    assert_eq!(u.signed_depths, vec![1]);
    assert_eq!(u.step(LayerKind::Literal), Step::Done);
    assert!(u.finished);
}
