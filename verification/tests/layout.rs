use todo_core::{Cont, ContType, Vec2, UI};

#[test]
fn vec2_new_holds_components() {
    let v = Vec2::new(3, -4);
    assert_eq!(v.row, 3);
    assert_eq!(v.col, -4);
}

#[test]
fn vec2_default_is_origin() {
    assert_eq!(Vec2::default(), Vec2::new(0, 0));
}

#[test]
fn vec2_add_is_component_wise() {
    assert_eq!(Vec2::new(1, 2).add(Vec2::new(10, 20)), Vec2::new(11, 22));
    assert_eq!(Vec2::new(-1, 5).add(Vec2::new(1, -5)), Vec2::new(0, 0));
}

#[test]
fn vec2_mul_is_component_wise() {
    assert_eq!(Vec2::new(3, 4).mul(Vec2::new(5, 6)), Vec2::new(15, 24));
}

#[test]
fn vec2_mul_by_unit_projects_onto_axis() {
    assert_eq!(Vec2::new(7, 9).mul(Vec2::new(1, 0)), Vec2::new(7, 0));
    assert_eq!(Vec2::new(7, 9).mul(Vec2::new(0, 1)), Vec2::new(0, 9));
}

#[test]
fn horizontal_slot_moves_along_row() {
    let c = Cont { kind: ContType::Horz, pos: Vec2::new(2, 3), size: Vec2::new(10, 4) };
    assert_eq!(c.available_pos(), Vec2::new(12, 3));
}

#[test]
fn vertical_slot_moves_along_column() {
    let c = Cont { kind: ContType::Vert, pos: Vec2::new(2, 3), size: Vec2::new(10, 4) };
    assert_eq!(c.available_pos(), Vec2::new(2, 7));
}

#[test]
fn horizontal_fold_is_sum_and_max() {
    let mut c = Cont { kind: ContType::Horz, pos: Vec2::new(0, 0), size: Vec2::new(0, 0) };
    c.add_widget(Vec2::new(5, 1));
    c.add_widget(Vec2::new(7, 3));
    c.add_widget(Vec2::new(2, 2));
    assert_eq!(c.size, Vec2::new(14, 3));
    assert_eq!(c.pos, Vec2::new(0, 0));
    assert_eq!(c.kind, ContType::Horz);
}

#[test]
fn vertical_fold_is_max_and_sum() {
    let mut c = Cont { kind: ContType::Vert, pos: Vec2::new(0, 0), size: Vec2::new(0, 0) };
    c.add_widget(Vec2::new(5, 1));
    c.add_widget(Vec2::new(7, 3));
    c.add_widget(Vec2::new(2, 2));
    assert_eq!(c.size, Vec2::new(7, 6));
}

#[test]
fn fold_of_nothing_is_zero() {
    let c = Cont { kind: ContType::Horz, pos: Vec2::new(4, 4), size: Vec2::new(0, 0) };
    assert_eq!(c.size, Vec2::new(0, 0));
    assert_eq!(c.available_pos(), Vec2::new(4, 4));
}

#[test]
fn begin_opens_root_at_origin() {
    let mut ui = UI::default();
    assert!(ui.containers.is_empty());
    ui.begin(Vec2::new(1, 2), ContType::Vert);
    assert_eq!(ui.containers.len(), 1);
    assert_eq!(ui.containers[0].pos, Vec2::new(1, 2));
    assert_eq!(ui.containers[0].size, Vec2::new(0, 0));
    assert_eq!(ui.containers[0].kind, ContType::Vert);
    ui.end();
    assert!(ui.containers.is_empty());
}

#[test]
fn nested_scopes_balance() {
    let mut ui = UI::default();
    ui.begin(Vec2::new(0, 0), ContType::Vert);
    let depth = 5;
    for _ in 0..depth {
        ui.begin_container(ContType::Horz);
    }
    assert_eq!(ui.containers.len(), depth + 1);
    for _ in 0..depth {
        ui.end_container();
    }
    assert_eq!(ui.containers.len(), 1);
    ui.end();
    assert_eq!(ui.containers.len(), 0);
    assert!(ui.draws.is_empty());
}

#[test]
fn child_opens_at_next_slot_of_parent() {
    let mut ui = UI::default();
    ui.begin(Vec2::new(0, 0), ContType::Vert);
    ui.label_fixed_width("a", 0, 10);
    ui.label_fixed_width("b", 0, 10);
    ui.begin_container(ContType::Horz);
    assert_eq!(ui.containers[1].pos, Vec2::new(0, 2));
    ui.label_fixed_width("c", 0, 4);
    ui.begin_container(ContType::Vert);
    assert_eq!(ui.containers[2].pos, Vec2::new(4, 2));
    ui.end_container();
    ui.end_container();
    ui.end();
}

#[test]
fn closed_child_folds_into_parent() {
    let mut ui = UI::default();
    ui.begin(Vec2::new(0, 0), ContType::Horz);
    ui.begin_container(ContType::Vert);
    ui.label_fixed_width("one", 0, 8);
    ui.label_fixed_width("two", 0, 6);
    ui.label_fixed_width("three", 0, 9);
    assert_eq!(ui.containers[1].size, Vec2::new(9, 3));
    ui.end_container();
    assert_eq!(ui.containers[0].size, Vec2::new(9, 3));
    ui.begin_container(ContType::Vert);
    assert_eq!(ui.containers[1].pos, Vec2::new(9, 0));
    ui.label_fixed_width("four", 0, 5);
    ui.end_container();
    assert_eq!(ui.containers[0].size, Vec2::new(14, 3));
    ui.end();
}

#[test]
fn engine_gives_next_slot_of_innermost_container() {
    let mut ui = UI::default();
    ui.begin(Vec2::new(1, 1), ContType::Vert);
    assert_eq!(ui.available_pos(), Vec2::new(1, 1));
    ui.add_widget(Vec2::new(6, 2));
    assert_eq!(ui.available_pos(), Vec2::new(1, 3));
    ui.begin_container(ContType::Horz);
    assert_eq!(ui.available_pos(), Vec2::new(1, 3));
    ui.add_widget(Vec2::new(4, 1));
    ui.add_widget(Vec2::new(3, 5));
    assert_eq!(ui.available_pos(), Vec2::new(8, 3));
    assert_eq!(ui.containers[1].size, Vec2::new(7, 5));
    assert_eq!(ui.containers[0].size, Vec2::new(6, 2));
    ui.end_container();
    assert_eq!(ui.containers[0].size, Vec2::new(7, 7));
    assert!(ui.draws.is_empty());
    ui.end();
}
