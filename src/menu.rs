use vstd::prelude::*;

verus! {

/// Screens of the game. The game opens in `MainMenu`.
#[derive(Clone, Copy, Debug, PartialEq, Eq, Structural, Hash)]
pub enum AppState {
    MainMenu,
    Credits,
    InGame,
    Win,
    Lose,
}

/// What the pointer does to a button.
#[derive(Clone, Copy, Debug, PartialEq, Eq, Structural)]
pub enum Interaction {
    Pressed,
    Hovered,
    Idle,
}

/// Buttons of the main menu.
#[derive(Clone, Copy, Debug, PartialEq, Eq, Structural)]
pub enum MainMenuButtonActions {
    Start,
    Credits,
}

/// The button of the other screens, which leads back to the main menu.
#[derive(Clone, Copy, Debug, PartialEq, Eq, Structural)]
pub enum OtherButtonActions {
    Back,
}

/// Background shades of a button.
#[derive(Clone, Copy, Debug, PartialEq, Eq, Structural)]
pub enum ButtonColor {
    Normal,
    Hovered,
    HoveredPressed,
    Pressed,
}

/// Screen that a main-menu button leads to.
pub open spec fn main_menu_target(action: MainMenuButtonActions) -> AppState {
    match action {
        MainMenuButtonActions::Start => AppState::InGame,
        MainMenuButtonActions::Credits => AppState::Credits,
    }
}

/// Screen chosen by the last pressed button among `changed`, if any was pressed.
pub open spec fn last_main_menu_choice(changed: Seq<(Interaction, MainMenuButtonActions)>) -> Option<AppState>
    decreases changed.len(),
{
    if changed.len() == 0 {
        None
    } else if changed.last().0 == Interaction::Pressed {
        Some(main_menu_target(changed.last().1))
    } else {
        last_main_menu_choice(changed.drop_last())
    }
}

/// Next screen asked for by the main-menu buttons whose interaction changed
/// this frame: the last one pressed decides; `None` when none was pressed.
pub fn action_main_menu(changed: &Vec<(Interaction, MainMenuButtonActions)>) -> (r: Option<AppState>)
    ensures
        r == last_main_menu_choice(changed@),
{
    let mut chosen: Option<AppState> = None;
    let mut i: usize = 0;
    while i < changed.len()
        invariant
            i <= changed@.len(),
            chosen == last_main_menu_choice(changed@.subrange(0, i as int)),
        decreases changed@.len() - i,
    {
        let (interaction, action) = changed[i];
        proof {
            let next = changed@.subrange(0, i + 1);
            assert(next.drop_last() =~= changed@.subrange(0, i as int));
            assert(next.last() == changed@[i as int]);
        }
        if interaction == Interaction::Pressed {
            chosen = match action {
                MainMenuButtonActions::Start => Some(AppState::InGame),
                MainMenuButtonActions::Credits => Some(AppState::Credits),
            };
        }
        i = i + 1;
    }
    assert(changed@.subrange(0, changed@.len() as int) =~= changed@);
    chosen
}

/// Next screen asked for by the back buttons whose interaction changed this
/// frame: the main menu when one was pressed, else `None`.
pub fn action_credits(changed: &Vec<(Interaction, OtherButtonActions)>) -> (r: Option<AppState>)
    ensures
        r == (if exists|k: int| 0 <= k < changed@.len() && #[trigger] changed@[k].0 == Interaction::Pressed {
            Some(AppState::MainMenu)
        } else {
            None
        }),
{
    let mut chosen: Option<AppState> = None;
    let mut i: usize = 0;
    while i < changed.len()
        invariant
            i <= changed@.len(),
            chosen == (if exists|k: int| 0 <= k < i && #[trigger] changed@[k].0 == Interaction::Pressed {
                Some(AppState::MainMenu)
            } else {
                None
            }),
        decreases changed@.len() - i,
    {
        let (interaction, action) = changed[i];
        if interaction == Interaction::Pressed {
            chosen = match action {
                OtherButtonActions::Back => Some(AppState::MainMenu),
            };
        }
        i = i + 1;
    }
    chosen
}

/// Background shade of a button: pressed, or selected and left alone, shows
/// pressed; hovered shows hovered, or hovered-pressed when selected.
pub fn button_color(interaction: Interaction, selected: bool) -> (r: ButtonColor)
    ensures
        r == (match interaction {
            Interaction::Pressed => ButtonColor::Pressed,
            Interaction::Hovered => if selected {
                ButtonColor::HoveredPressed
            } else {
                ButtonColor::Hovered
            },
            Interaction::Idle => if selected {
                ButtonColor::Pressed
            } else {
                ButtonColor::Normal
            },
        }),
{
    match (interaction, selected) {
        (Interaction::Pressed, _) | (Interaction::Idle, true) => ButtonColor::Pressed,
        (Interaction::Hovered, true) => ButtonColor::HoveredPressed,
        (Interaction::Hovered, false) => ButtonColor::Hovered,
        (Interaction::Idle, false) => ButtonColor::Normal,
    }
}

} // verus!
