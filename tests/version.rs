use rpgpie_sop::version::Version;
use rpgpie_sop::RPGSOP;

#[test]
fn version_strings() {
    let v: Version = RPGSOP::new().version();
    let f = v.frontend();
    assert_eq!(f.name, "rpgpie-sop");
    assert_eq!(f.version, "0.1.0");
    let b = v.backend();
    assert_eq!(b.name, "rpgpie");
    assert!(b.version.contains(" (rpgp "));
    assert!(b.version.ends_with(')'));
    let x = v.extended();
    assert!(x.starts_with("rpgpie "));
    assert!(x.contains("\nrpgp "));
    assert_eq!(x.lines().count(), 2);
}
