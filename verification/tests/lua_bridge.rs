use bevy_toolbox::scripting::lua_bridge::{next_handle, HandleMap, LuaCommand, PartAction, FIRST_HANDLE};

type Cmd = LuaCommand<[f32; 3], &'static str, f32>;
type Action = PartAction<u32, String, [f32; 3], &'static str, f32>;

#[test]
fn handles_start_at_one_and_count_up() {
    let mut counter = FIRST_HANDLE;
    assert_eq!(next_handle(&mut counter), 1);
    assert_eq!(next_handle(&mut counter), 2);
    assert_eq!(next_handle(&mut counter), 3);
    assert_eq!(counter, 4);
}

#[test]
fn handle_counter_wraps_at_the_top() {
    let mut counter = u64::MAX;
    assert_eq!(next_handle(&mut counter), u64::MAX);
    assert_eq!(counter, 0);
    assert_eq!(next_handle(&mut counter), 0);
    assert_eq!(counter, 1);
}

#[test]
fn spawn_command_asks_for_a_part() {
    let mut map: HandleMap<u32, String> = HandleMap::new();
    let cmd: Cmd = LuaCommand::SpawnPart { handle: 7, position: [1.0, 2.0, 3.0], size: [1.0, 1.0, 1.0], color: "grey" };
    let action: Action = map.route(cmd);
    match action {
        PartAction::Spawn { handle, position, size, color } => {
            assert_eq!(handle, 7);
            assert_eq!(position, [1.0, 2.0, 3.0]);
            assert_eq!(size, [1.0, 1.0, 1.0]);
            assert_eq!(color, "grey");
        }
        _ => panic!("expected a spawn"),
    }
    assert!(map.0.is_empty());
}

#[test]
fn bound_handle_receives_moves_resizes_and_recolors() {
    let mut map: HandleMap<u32, String> = HandleMap::new();
    map.bind(7, 70, "mat-7".to_string());
    map.bind(8, 80, "mat-8".to_string());
    assert_eq!(map.entity_of(7), Some(70));
    assert_eq!(map.entity_of(9), None);

    let moved: Action = map.route(LuaCommand::SetPosition { handle: 7, value: [4.0, 5.0, 6.0] });
    assert!(matches!(moved, PartAction::Place { entity: 70, translation } if translation == [4.0, 5.0, 6.0]));

    let resized: Action = map.route(LuaCommand::SetSize { handle: 8, value: [2.0, 2.0, 2.0] });
    assert!(matches!(resized, PartAction::Resize { entity: 80, scale } if scale == [2.0, 2.0, 2.0]));

    let recolored: Action = map.route(LuaCommand::SetColor { handle: 7, r: 0.1, g: 0.2, b: 0.3 });
    match recolored {
        PartAction::Recolor { material, r, g, b } => {
            assert_eq!(material, "mat-7");
            assert_eq!((r, g, b), (0.1, 0.2, 0.3));
        }
        _ => panic!("expected a recolor"),
    }
    assert_eq!(map.0.len(), 2);
}

#[test]
fn commands_for_unknown_handles_are_ignored() {
    let mut map: HandleMap<u32, String> = HandleMap::new();
    map.bind(1, 10, "m".to_string());
    let a: Action = map.route(LuaCommand::SetPosition { handle: 2, value: [0.0; 3] });
    assert!(matches!(a, PartAction::Ignore));
    let a: Action = map.route(LuaCommand::SetSize { handle: 2, value: [0.0; 3] });
    assert!(matches!(a, PartAction::Ignore));
    let a: Action = map.route(LuaCommand::SetColor { handle: 2, r: 1.0, g: 1.0, b: 1.0 });
    assert!(matches!(a, PartAction::Ignore));
    let a: Action = map.route(LuaCommand::Despawn { handle: 2 });
    assert!(matches!(a, PartAction::Ignore));
    assert_eq!(map.0.len(), 1);
    assert_eq!(map.entity_of(1), Some(10));
}

#[test]
fn despawn_removes_the_entity_and_forgets_the_handle() {
    let mut map: HandleMap<u32, String> = HandleMap::new();
    map.bind(3, 30, "m3".to_string());
    map.bind(4, 40, "m4".to_string());
    let a: Action = map.route(LuaCommand::Despawn { handle: 3 });
    assert!(matches!(a, PartAction::Remove { entity: 30 }));
    assert_eq!(map.entity_of(3), None);
    assert_eq!(map.entity_of(4), Some(40));
    let again: Action = map.route(LuaCommand::SetPosition { handle: 3, value: [1.0; 3] });
    assert!(matches!(again, PartAction::Ignore));
    let twice: Action = map.route(LuaCommand::Despawn { handle: 3 });
    assert!(matches!(twice, PartAction::Ignore));
}

#[test]
fn rebinding_a_handle_replaces_its_entity() {
    let mut map: HandleMap<u32, String> = HandleMap::new();
    map.bind(5, 50, "old".to_string());
    map.bind(5, 51, "new".to_string());
    assert_eq!(map.0.len(), 1);
    let a: Action = map.route(LuaCommand::SetColor { handle: 5, r: 0.0, g: 0.0, b: 0.0 });
    assert!(matches!(a, PartAction::Recolor { ref material, .. } if material == "new"));
    let a: Action = map.route(LuaCommand::Despawn { handle: 5 });
    assert!(matches!(a, PartAction::Remove { entity: 51 }));
}
