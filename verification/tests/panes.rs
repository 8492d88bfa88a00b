use mosaic::panes::Panes;

#[test]
fn opening_more_panes_closes_the_old_ones() {
    let mut panes = Panes::new(Some(2));
    assert_eq!(panes.open(10), None);
    assert_eq!(panes.open(11), None);
    assert_eq!(panes.open(12), Some(10));
    assert_eq!(panes.open(13), Some(11));
    assert_eq!(panes.ids(), &vec![12, 13]);
}

#[test]
fn panes_without_a_limit_all_stay() {
    let mut panes = Panes::new(None);
    for id in 0..100 {
        assert_eq!(panes.open(id), None);
    }
    assert_eq!(panes.ids().len(), 100);
}

#[test]
fn one_pane_is_let_in_under_a_limit_of_none_at_all() {
    let mut panes = Panes::new(Some(0));
    assert_eq!(panes.open(1), None);
    assert_eq!(panes.open(2), Some(1));
    assert_eq!(panes.ids(), &vec![2]);
}

#[test]
fn closed_pane_makes_room() {
    let mut panes = Panes::new(Some(2));
    panes.open(1);
    panes.open(2);
    panes.close(1);
    panes.close(7);
    assert_eq!(panes.ids(), &vec![2]);
    assert_eq!(panes.open(3), None);
    assert_eq!(panes.ids(), &vec![2, 3]);
}
