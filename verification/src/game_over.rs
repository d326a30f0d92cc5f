//! The game-over screen's one control: the play-again button, which
//! restarts the game when clicked and changes its tint as the pointer
//! moves over it.

use vstd::prelude::*;

verus! {

/// What the pointer is doing to the button this frame.
#[derive(Clone, Copy, Debug, PartialEq, Eq, Structural)]
pub enum Interaction {
    /// The button was clicked.
    Clicked,
    /// The pointer hovers over the button.
    Hovered,
    /// The pointer is elsewhere.
    Idle,
}

/// The tints the play-again button takes.
#[derive(Clone, Copy, Debug, PartialEq, Eq, Structural)]
pub enum ButtonTint {
    /// The warm tint the button is born with.
    Bisque,
    /// The tint while hovered.
    LimeGreen,
    /// The tint at rest.
    White,
}

/// What one frame of button handling asks of the world.
#[derive(Clone, Copy, Debug, PartialEq, Eq, Structural)]
pub struct ButtonResponse {
    /// Restart the game (leave the game-over screen and run again).
    pub restart: bool,
    /// Repaint the button, where a change of tint is called for.
    pub recolor: Option<ButtonTint>,
}

/// Handle the play-again button: a click restarts the game and leaves
/// the tint alone; hovering turns the button lime green; anything else
/// paints it white.
pub fn play_again_button(interaction: &Interaction) -> (r: ButtonResponse)
    ensures
        *interaction == Interaction::Clicked ==> r == (ButtonResponse {
            restart: true,
            recolor: Option::<ButtonTint>::None,
        }),
        *interaction == Interaction::Hovered ==> r == (ButtonResponse {
            restart: false,
            recolor: Some(ButtonTint::LimeGreen),
        }),
        *interaction == Interaction::Idle ==> r == (ButtonResponse {
            restart: false,
            recolor: Some(ButtonTint::White),
        }),
{
    match interaction {
        Interaction::Clicked => ButtonResponse { restart: true, recolor: Option::None },
        Interaction::Hovered => ButtonResponse {
            restart: false,
            recolor: Some(ButtonTint::LimeGreen),
        },
        Interaction::Idle => ButtonResponse { restart: false, recolor: Some(ButtonTint::White) },
    }
}

} // verus!
