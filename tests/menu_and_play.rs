use lots_of_snow::menu::{
    action_credits, action_main_menu, button_color, AppState, ButtonColor, Interaction,
    MainMenuButtonActions, OtherButtonActions,
};
use lots_of_snow::play::{
    anim_player, collide_snow_with_player, horizontal_direction, move_enemy, snow_sprite,
    spawn_snow, AnimationIndices, Heading, PlayerPose, MAX_SNOW,
};

#[test]
fn main_menu_without_press_stays() {
    assert_eq!(action_main_menu(&vec![]), None);
    assert_eq!(
        action_main_menu(&vec![(Interaction::Hovered, MainMenuButtonActions::Start)]),
        None
    );
}

#[test]
fn main_menu_start_and_credits() {
    assert_eq!(
        action_main_menu(&vec![(Interaction::Pressed, MainMenuButtonActions::Start)]),
        Some(AppState::InGame)
    );
    assert_eq!(
        action_main_menu(&vec![(Interaction::Pressed, MainMenuButtonActions::Credits)]),
        Some(AppState::Credits)
    );
}

#[test]
fn main_menu_last_press_wins() {
    let changed = vec![
        (Interaction::Pressed, MainMenuButtonActions::Start),
        (Interaction::Pressed, MainMenuButtonActions::Credits),
        (Interaction::Idle, MainMenuButtonActions::Start),
    ];
    assert_eq!(action_main_menu(&changed), Some(AppState::Credits));
}

#[test]
fn back_button_returns_to_main_menu() {
    assert_eq!(action_credits(&vec![]), None);
    assert_eq!(action_credits(&vec![(Interaction::Hovered, OtherButtonActions::Back)]), None);
    assert_eq!(
        action_credits(&vec![
            (Interaction::Idle, OtherButtonActions::Back),
            (Interaction::Pressed, OtherButtonActions::Back),
        ]),
        Some(AppState::MainMenu)
    );
}

#[test]
fn button_colors() {
    assert_eq!(button_color(Interaction::Pressed, false), ButtonColor::Pressed);
    assert_eq!(button_color(Interaction::Pressed, true), ButtonColor::Pressed);
    assert_eq!(button_color(Interaction::Idle, true), ButtonColor::Pressed);
    assert_eq!(button_color(Interaction::Hovered, true), ButtonColor::HoveredPressed);
    assert_eq!(button_color(Interaction::Hovered, false), ButtonColor::Hovered);
    assert_eq!(button_color(Interaction::Idle, false), ButtonColor::Normal);
}

#[test]
fn animation_cycles_through_frames() {
    let indices = AnimationIndices { first: 0, last: 3 };
    let mut frame = indices.first;
    let mut seen = vec![];
    for _ in 0..6 {
        frame = indices.next(frame);
        seen.push(frame);
    }
    assert_eq!(seen, vec![1, 2, 3, 0, 1, 2]);
    assert_eq!(AnimationIndices { first: 5, last: 5 }.next(5), 5);
}

#[test]
fn direction_from_keys() {
    assert_eq!(horizontal_direction(false, false), 0);
    assert_eq!(horizontal_direction(true, false), -1);
    assert_eq!(horizontal_direction(false, true), 1);
    assert_eq!(horizontal_direction(true, true), 0);
}

#[test]
fn enemy_turns_at_bounds() {
    assert_eq!(move_enemy(Heading::Left, true, false), Heading::Right);
    assert_eq!(move_enemy(Heading::Right, true, false), Heading::Right);
    assert_eq!(move_enemy(Heading::Right, false, true), Heading::Left);
    assert_eq!(move_enemy(Heading::Left, false, true), Heading::Left);
    assert_eq!(move_enemy(Heading::Left, false, false), Heading::Left);
    assert_eq!(move_enemy(Heading::Right, false, false), Heading::Right);
    assert_eq!(Heading::Left.sign(), -1);
    assert_eq!(Heading::Right.sign(), 1);
}

#[test]
fn player_pose_follows_action_key() {
    assert_eq!(anim_player(PlayerPose::Upright, true), Some(PlayerPose::Leaning));
    assert_eq!(anim_player(PlayerPose::Upright, false), None);
    assert_eq!(anim_player(PlayerPose::Leaning, false), Some(PlayerPose::Upright));
    assert_eq!(anim_player(PlayerPose::Leaning, true), None);
}

#[test]
fn snow_kicked_only_when_held_and_touching() {
    assert_eq!(collide_snow_with_player(true, true), Some((160, 320)));
    assert_eq!(collide_snow_with_player(true, false), None);
    assert_eq!(collide_snow_with_player(false, true), None);
}

#[test]
fn snow_sprites_by_index() {
    assert_eq!(snow_sprite(0), "snow_1.png");
    assert_eq!(snow_sprite(1), "snow_2.png");
}

#[test]
fn snow_spawns_only_when_due_and_room() {
    assert_eq!(spawn_snow(false, 0), None);
    assert_eq!(spawn_snow(true, MAX_SNOW), None);
    assert_eq!(spawn_snow(true, 100), None);
    assert!(spawn_snow(true, 99).is_some());
}

#[test]
fn snow_sprite_drawn_at_random() {
    let mut first = 0;
    let mut second = 0;
    for _ in 0..200 {
        match spawn_snow(true, 0) {
            Some("snow_1.png") => first += 1,
            Some("snow_2.png") => second += 1,
            other => panic!("unexpected {:?}", other),
        }
    }
    assert!(first > 0 && second > 0);
}
