use rusterizer::coverage::CoverageMask;

#[test]
fn coverage_mask() {
    let mut m = CoverageMask::new();
    assert!(m.empty());
    assert!(!m.any());

    m.set(0, true);
    assert!(!m.empty());
    assert!(m.any());
    assert!(m.get(0));
    assert!(!m.get(1));
    assert!(!m.get(2));
    assert!(!m.get(3));

    m.set(2, true);
    assert!(m.get(0));
    assert!(!m.get(1));
    assert!(m.get(2));
    assert!(!m.get(3));
    assert!(m.any());
    assert!(!m.empty());

    m.set(3, false);
    assert!(m.get(0));
    assert!(!m.get(1));
    assert!(m.get(2));
    assert!(!m.get(3));
    assert!(m.any());
    assert!(!m.empty());

    m.set(0, false);
    assert!(!m.get(0));
    assert!(!m.get(1));
    assert!(m.get(2));
    assert!(!m.get(3));
    assert!(m.any());
    assert!(!m.empty());

    m.set(2, false);
    assert!(!m.get(0));
    assert!(!m.get(1));
    assert!(!m.get(2));
    assert!(!m.get(3));
    assert!(!m.any());
    assert!(m.empty());
}

#[test]
fn coverage_mask_all() {
    let mut m = CoverageMask::new();
    assert!(!m.all());
    m.set(0, true);
    m.set(1, true);
    m.set(2, true);
    assert!(!m.all());
    m.set(3, true);
    assert!(m.all());
    assert_eq!(CoverageMask::len(), 4);
}
