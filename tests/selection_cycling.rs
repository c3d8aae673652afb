use cube_select::{appearance_for, Appearance, Cube, CubeSelection, Scene, SelectionChange};

fn selected_count(s: &Scene) -> usize {
    (0..s.len()).filter(|&i| s.cube(i).selected).count()
}

fn shown_selected_count(s: &Scene) -> usize {
    (0..s.len()).filter(|&i| s.cube(i).appearance == Appearance::Selected).count()
}

#[test]
fn start_up_scene_has_one_selected_cube() {
    let s = Scene::new(10);
    assert_eq!(s.len(), 1);
    assert_eq!(s.current_index(), 0);
    assert_eq!(s.selected_id(), 10);
    assert_eq!(
        s.cube(0),
        Cube { id: 10, selected: true, appearance: Appearance::Selected }
    );
}

#[test]
fn previous_at_start_keeps_first_cube_selected() {
    let mut s = Scene::new(0);
    let r = s.select(true, false);
    assert_eq!(r, None);
    assert_eq!(s.current_index(), 0);
    assert!(s.cube(0).selected);
    assert_eq!(s.selected_id(), 0);
}

#[test]
fn next_after_spawn_moves_marker_and_highlight() {
    let mut s = Scene::new(0);
    s.spawn(1);
    assert_eq!(s.len(), 2);
    assert_eq!(s.current_index(), 0);
    let r = s.select(false, true);
    assert_eq!(r, Some(SelectionChange { deselect: 0, select: 1 }));
    assert_eq!(s.current_index(), 1);
    assert!(!s.cube(0).selected);
    assert!(s.cube(1).selected);
    s.highlight();
    assert_eq!(s.cube(0).appearance, Appearance::Unselected);
    assert_eq!(s.cube(1).appearance, Appearance::Selected);
}

#[test]
fn next_at_last_cube_is_clamped() {
    let mut s = Scene::new(0);
    s.spawn(1);
    s.spawn(2);
    assert_eq!(s.select(false, true), Some(SelectionChange { deselect: 0, select: 1 }));
    assert_eq!(s.select(false, true), Some(SelectionChange { deselect: 1, select: 2 }));
    assert_eq!(s.current_index(), 2);
    assert_eq!(s.select(false, true), None);
    assert_eq!(s.current_index(), 2);
    assert_eq!(s.selected_id(), 2);
    assert!(s.cube(2).selected);
}

#[test]
fn next_on_single_cube_is_clamped() {
    let mut s = Scene::new(5);
    assert_eq!(s.select(false, true), None);
    assert_eq!(s.current_index(), 0);
}

#[test]
fn spawn_appends_without_moving_selection() {
    let mut s = Scene::new(0);
    s.spawn(42);
    assert_eq!(s.len(), 2);
    assert_eq!(s.current_index(), 0);
    assert_eq!(s.selected_id(), 0);
    assert_eq!(
        s.cube(1),
        Cube { id: 42, selected: false, appearance: Appearance::Unselected }
    );
    assert!(s.cube(0).selected);
}

#[test]
fn spawn_keeps_selection_after_moving() {
    let mut s = Scene::new(0);
    s.spawn(1);
    s.select(false, true);
    s.spawn(2);
    assert_eq!(s.len(), 3);
    assert_eq!(s.current_index(), 1);
    assert!(!s.cube(2).selected);
}

#[test]
fn previous_wins_when_both_keys_pressed() {
    let mut s = Scene::new(0);
    s.spawn(1);
    s.spawn(2);
    s.select(false, true);
    let r = s.select(true, true);
    assert_eq!(r, Some(SelectionChange { deselect: 1, select: 0 }));
    assert_eq!(s.current_index(), 0);
}

#[test]
fn next_applies_when_previous_is_blocked() {
    let mut s = Scene::new(0);
    s.spawn(1);
    let r = s.select(true, true);
    assert_eq!(r, Some(SelectionChange { deselect: 0, select: 1 }));
    assert_eq!(s.current_index(), 1);
}

#[test]
fn no_keys_means_no_change() {
    let mut s = Scene::new(0);
    s.spawn(1);
    assert_eq!(s.select(false, false), None);
    assert_eq!(s.current_index(), 0);
}

#[test]
fn highlight_twice_equals_once() {
    let mut s = Scene::new(0);
    s.spawn(1);
    s.spawn(2);
    s.select(false, true);
    s.highlight();
    let once: Vec<Cube> = (0..s.len()).map(|i| s.cube(i)).collect();
    s.highlight();
    let twice: Vec<Cube> = (0..s.len()).map(|i| s.cube(i)).collect();
    assert_eq!(once, twice);
    assert_eq!(once[1].appearance, Appearance::Selected);
    assert_eq!(once[0].appearance, Appearance::Unselected);
    assert_eq!(once[2].appearance, Appearance::Unselected);
}

#[test]
fn index_valid_and_one_selected_over_many_frames() {
    let mut s = Scene::new(0);
    let keys = [
        (true, false), (false, true), (false, false), (true, true),
        (false, true), (false, true), (true, false), (false, true),
    ];
    let mut next_id: u64 = 1;
    for frame in 0..40usize {
        if frame % 3 == 0 {
            s.spawn(next_id);
            next_id += 1;
        }
        let (prev, next) = keys[frame % keys.len()];
        s.select(prev, next);
        s.highlight();
        assert!(s.current_index() < s.len());
        assert_eq!(selected_count(&s), 1);
        assert_eq!(shown_selected_count(&s), 1);
        assert!(s.cube(s.current_index()).selected);
    }
}

#[test]
fn appearance_follows_marker() {
    assert_eq!(appearance_for(true), Appearance::Selected);
    assert_eq!(appearance_for(false), Appearance::Unselected);
}

#[test]
fn selection_list_steps_and_clamps() {
    let mut sel = CubeSelection::new(3);
    assert_eq!(sel.len(), 1);
    assert_eq!(sel.selected(), 3);
    assert_eq!(sel.step(true, false), None);
    sel.push(4);
    sel.push(5);
    assert_eq!(sel.len(), 3);
    assert_eq!(sel.current_index(), 0);
    assert_eq!(sel.step(false, true), Some(SelectionChange { deselect: 3, select: 4 }));
    assert_eq!(sel.step(false, true), Some(SelectionChange { deselect: 4, select: 5 }));
    assert_eq!(sel.step(false, true), None);
    assert_eq!(sel.selected(), 5);
    assert_eq!(sel.step(true, false), Some(SelectionChange { deselect: 5, select: 4 }));
    assert_eq!(sel.current_index(), 1);
}
