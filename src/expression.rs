//! Expressions, the raw settings they are made from, and the catalog that
//! holds them under stable ids.

use vstd::prelude::*;

verus! {

/// The peak bounce speed of a new expression: twelve pixels, in hundredths
/// of a pixel.
pub const DEFAULT_MAX_VELOCITY: u32 = 1200;

/// How far a new expression's avatar is shortened, in pixels.
pub const DEFAULT_HEIGHT_REDUCTION: u32 = 32;

/// One configured reactive state of the avatar.
///
/// `threshold` is on the scale of the audio level; `max_velocity` is in
/// hundredths of a pixel; `asset_ref` names the image shown while the
/// expression is active and is never read by the selection logic.
pub struct Expression {
    pub id: u64,
    pub threshold: i64,
    pub attack_ms: u64,
    pub release_ms: u64,
    pub should_bounce: bool,
    pub max_velocity: u32,
    pub total_frames: u32,
    pub height_reduction: u32,
    pub asset_ref: String,
}

/// The settings of an expression as a user or a saved file gives them, not
/// yet checked: durations, frame counts and sizes may be negative.
pub struct ExpressionSettings {
    pub threshold: i64,
    pub attack_ms: i64,
    pub release_ms: i64,
    pub should_bounce: bool,
    pub max_velocity: i64,
    pub total_frames: i64,
    pub height_reduction: i64,
    pub asset_ref: String,
}

impl Expression {
    /// An expression bounces when bouncing is switched on and the bounce
    /// lasts at least one frame.
    pub open spec fn has_bounce(&self) -> bool {
        self.should_bounce && self.total_frames > 0
    }

    /// Whether this expression plays a bounce when it becomes active.
    pub fn bounces(&self) -> (r: bool)
        ensures
            r == self.has_bounce(),
    {
        self.should_bounce && self.total_frames > 0
    }
}

/// A possibly negative count clamped into `0..=u32::MAX`.
pub open spec fn clamp_to_u32(x: i64) -> u32 {
    if x < 0 {
        0
    } else if x > u32::MAX {
        u32::MAX
    } else {
        x as u32
    }
}

/// A possibly negative duration clamped to zero from below.
pub open spec fn clamp_to_u64(x: i64) -> u64 {
    if x < 0 {
        0
    } else {
        x as u64
    }
}

/// The expression with id `id` that `s` describes once malformed values are
/// normalised: negative durations, frame counts and sizes become zero, and a
/// bounce without frames is switched off.
pub open spec fn normalized(id: u64, s: ExpressionSettings) -> Expression {
    Expression {
        id,
        threshold: s.threshold,
        attack_ms: clamp_to_u64(s.attack_ms),
        release_ms: clamp_to_u64(s.release_ms),
        should_bounce: s.should_bounce && s.total_frames > 0,
        max_velocity: clamp_to_u32(s.max_velocity),
        total_frames: clamp_to_u32(s.total_frames),
        height_reduction: clamp_to_u32(s.height_reduction),
        asset_ref: s.asset_ref,
    }
}

/// Whether `e` is the expression that a new catalog entry with id `id`
/// starts as.
pub open spec fn is_default_expression(e: Expression, id: u64) -> bool {
    &&& e.id == id
    &&& e.threshold == 0
    &&& e.attack_ms == 0
    &&& e.release_ms == 0
    &&& !e.should_bounce
    &&& e.max_velocity == DEFAULT_MAX_VELOCITY
    &&& e.total_frames == 0
    &&& e.height_reduction == DEFAULT_HEIGHT_REDUCTION
    &&& e.asset_ref@ == Seq::<char>::empty()
}

fn clamp_u32(x: i64) -> (r: u32)
    ensures
        r == clamp_to_u32(x),
{
    if x < 0 {
        0
    } else if x > u32::MAX as i64 {
        u32::MAX
    } else {
        x as u32
    }
}

fn clamp_u64(x: i64) -> (r: u64)
    ensures
        r == clamp_to_u64(x),
{
    if x < 0 {
        0
    } else {
        x as u64
    }
}

impl Expression {
    /// Builds the expression with id `id` from raw settings, normalising
    /// malformed values.
    pub fn from_settings(id: u64, settings: ExpressionSettings) -> (e: Expression)
        ensures
            e == normalized(id, settings),
    {
        Expression {
            id,
            threshold: settings.threshold,
            attack_ms: clamp_u64(settings.attack_ms),
            release_ms: clamp_u64(settings.release_ms),
            should_bounce: settings.should_bounce && settings.total_frames > 0,
            max_velocity: clamp_u32(settings.max_velocity),
            total_frames: clamp_u32(settings.total_frames),
            height_reduction: clamp_u32(settings.height_reduction),
            asset_ref: settings.asset_ref,
        }
    }

    /// The expression a fresh catalog entry starts as: threshold zero, no
    /// attack or release time, no bounce and no image.
    pub fn default_with_id(id: u64) -> (e: Expression)
        ensures
            is_default_expression(e, id),
    {
        Expression {
            id,
            threshold: 0,
            attack_ms: 0,
            release_ms: 0,
            should_bounce: false,
            max_velocity: DEFAULT_MAX_VELOCITY,
            total_frames: 0,
            height_reduction: DEFAULT_HEIGHT_REDUCTION,
            asset_ref: String::new(),
        }
    }
}

} // verus!
