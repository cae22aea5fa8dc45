//! Client display and locale preferences, replaced wholesale on each
//! client-information update.

use vstd::prelude::*;

verus! {

/// The player's main hand, as declared in the client information packet.
#[derive(Clone, Copy, PartialEq, Eq, Structural, Debug)]
pub enum Hand {
    Left,
    Right,
}

/// The chat visibility the client asks for.
#[derive(Clone, Copy, PartialEq, Eq, Structural, Debug)]
pub enum ChatMode {
    Enabled,
    CommandsOnly,
    Hidden,
}

/// The hand a wire value denotes, if any.
pub open spec fn spec_hand_from_i32(v: int) -> Option<Hand> {
    if v == 0 {
        Some(Hand::Left)
    } else if v == 1 {
        Some(Hand::Right)
    } else {
        None
    }
}

/// The chat mode a wire value denotes, if any.
pub open spec fn spec_chat_mode_from_i32(v: int) -> Option<ChatMode> {
    if v == 0 {
        Some(ChatMode::Enabled)
    } else if v == 1 {
        Some(ChatMode::CommandsOnly)
    } else if v == 2 {
        Some(ChatMode::Hidden)
    } else {
        None
    }
}

/// Decodes the main-hand enumeration from its wire value.
pub fn hand_from_i32(v: i32) -> (r: Option<Hand>)
    ensures
        r == spec_hand_from_i32(v as int),
{
    match v {
        0 => Some(Hand::Left),
        1 => Some(Hand::Right),
        _ => None,
    }
}

/// Decodes the chat-mode enumeration from its wire value.
pub fn chat_mode_from_i32(v: i32) -> (r: Option<ChatMode>)
    ensures
        r == spec_chat_mode_from_i32(v as int),
{
    match v {
        0 => Some(ChatMode::Enabled),
        1 => Some(ChatMode::CommandsOnly),
        2 => Some(ChatMode::Hidden),
        _ => None,
    }
}

/// The client's declared display settings.
#[derive(Debug)]
pub struct PlayerConfig {
    pub locale: String,
    pub view_distance: u8,
    pub chat_mode: ChatMode,
    pub chat_colors: bool,
    pub skin_parts: u8,
    pub main_hand: Hand,
    pub text_filtering: bool,
    pub server_listing: bool,
}

} // verus!
