use thunderclap::layout::{ChildHandle, LayoutChildren, LayoutIds};

fn layout() -> LayoutChildren {
    let mut ids = LayoutIds::new();
    LayoutChildren::new(ids.fresh().unwrap())
}

#[test]
fn layout_identities_are_handed_out_once() {
    let mut ids = LayoutIds::new();
    assert_eq!(ids.fresh(), Some(0));
    assert_eq!(ids.fresh(), Some(1));
    assert_eq!(ids.fresh(), Some(2));
}

#[test]
fn children_get_fresh_ids_in_order() {
    let mut l = layout();
    assert!(l.take_dirty());
    assert!(!l.take_dirty());
    assert_eq!(l.push().child, 0);
    assert_eq!(l.push().child, 1);
    let h = l.push();
    assert_eq!(h, ChildHandle { layout: l.layout(), child: 2 });
    assert_eq!(l.ids(), vec![0, 1, 2]);
    assert_eq!(l.len(), 3);
    assert!(l.take_dirty());
}

#[test]
fn removing_moves_the_last_child_into_place() {
    let mut l = layout();
    let mut handles = Vec::new();
    for _ in 0..4 {
        handles.push(l.push());
    }
    l.take_dirty();
    assert!(l.remove(Some(handles[1])));
    assert_eq!(l.ids(), vec![0, 3, 2]);
    assert!(!l.take_dirty());
    assert!(!l.remove(Some(handles[1])));
    assert!(!l.remove(None));
    assert_eq!(l.ids(), vec![0, 3, 2]);
    assert_eq!(l.push().child, 4);
    assert_eq!(l.ids(), vec![0, 3, 2, 4]);
}

#[test]
fn a_child_of_another_layout_is_not_removed() {
    let mut ids = LayoutIds::new();
    let mut a = LayoutChildren::new(ids.fresh().unwrap());
    let mut b = LayoutChildren::new(ids.fresh().unwrap());
    assert_ne!(a.layout(), b.layout());
    let mine = a.push();
    a.push();
    let foreign = b.push();
    assert_eq!(mine.child, foreign.child);
    assert!(!a.remove(Some(foreign)));
    assert_eq!(a.ids(), vec![0, 1]);
    assert!(b.remove(Some(foreign)));
    assert_eq!(b.ids(), Vec::<u64>::new());
    assert!(a.remove(Some(mine)));
    assert_eq!(a.ids(), vec![1]);
}

#[test]
fn remove_right_after_push_restores_the_registry() {
    let mut l = layout();
    l.push();
    l.push();
    let before = l.ids();
    let h = l.push();
    assert!(l.remove(Some(h)));
    assert_eq!(l.ids(), before);
}

#[test]
fn dropped_children_are_removed_and_dirty_the_layout() {
    let mut l = layout();
    for _ in 0..5 {
        l.push();
    }
    l.take_dirty();
    assert_eq!(l.remove_dropped(&vec![7, 8]), 0);
    assert!(!l.take_dirty());
    assert_eq!(l.remove_dropped(&vec![0, 3, 3]), 2);
    assert!(l.take_dirty());
    assert_eq!(l.ids(), vec![4, 1, 2]);
    l.mark_dirty();
    assert!(l.take_dirty());
}
