//! A sensor tells when its content comes into view and goes out of view.
//! Here are its decisions at each redraw, and the keys by which it tells
//! whether it still watches the same content.

use vstd::prelude::*;

verus! {

/// A key that can be kept and compared with what was kept.
pub trait Key {
    type Owned;

    /// Whether this key is the one that `other` was made from.
    spec fn matches(&self, other: &Self::Owned) -> bool;

    fn to_owned(&self) -> (owned: Self::Owned)
        ensures
            self.matches(&owned),
    ;

    fn eq(&self, other: &Self::Owned) -> (same: bool)
        ensures
            same == self.matches(other),
    ;
}

impl Key for () {
    type Owned = ();

    open spec fn matches(&self, other: &()) -> bool {
        true
    }

    fn to_owned(&self) -> (owned: ()) {
    }

    fn eq(&self, _other: &()) -> (same: bool) {
        true
    }
}

impl Key for String {
    type Owned = String;

    open spec fn matches(&self, other: &String) -> bool {
        self@ == other@
    }

    fn to_owned(&self) -> (owned: String) {
        self.clone()
    }

    fn eq(&self, other: &String) -> (same: bool) {
        *self == *other
    }
}

/// A notice that is due.
#[derive(Clone, Copy, Debug, PartialEq, Eq, Structural)]
pub struct Notice {
    /// Whether the notice says that the content came into view; else it says
    /// that the content went out of view.
    pub popped_in: bool,
    /// The time from which the notice is to be given.
    pub at: u64,
}

/// What a sensor remembers between two redraws.
#[derive(Clone, Copy, Debug, PartialEq, Eq, Structural)]
pub struct SensorState {
    /// Whether the content is taken to be in view.
    pub has_popped_in: bool,
    /// The notice that is due, if one is.
    pub should_notify_at: Option<Notice>,
}

/// What the host asked a sensor for.
#[derive(Clone, Copy, Debug, PartialEq, Eq, Structural)]
pub struct SensorConfig {
    /// Whether the host wants to hear that the content came into view.
    pub on_show: bool,
    /// Whether the host wants to hear that the content changed its size.
    pub on_resize: bool,
    /// Whether the host wants to hear that the content went out of view; it
    /// hears so once.
    pub on_hide: bool,
    /// How long the content has to stay in view or out of view before the
    /// host hears of it.
    pub delay: u64,
}

/// What a sensor sees at a redraw.
#[derive(Clone, Copy, Debug, PartialEq, Eq, Structural)]
pub struct Frame {
    /// The time of the redraw.
    pub now: u64,
    /// Whether the key of the sensor differs from the key it had when the
    /// content came into view.
    pub key_changed: bool,
    /// Whether the content is no farther from what is shown than the sensor
    /// anticipates.
    pub near: bool,
    /// Whether the size of the content differs from the size remembered.
    pub size_changed: bool,
}

/// What a sensor does at a redraw.
#[derive(Clone, Copy, Debug, PartialEq, Eq, Structural)]
pub struct Reaction {
    /// The key of the sensor is remembered.
    pub remember_key: bool,
    /// The size of the content is remembered.
    pub remember_size: bool,
    /// The host hears that the content changed its size.
    pub publish_resize: bool,
    /// The host hears that the content came into view.
    pub publish_show: bool,
    /// The host hears that the content went out of view, for the only time.
    pub publish_hide: bool,
    /// Another redraw is asked for at this time.
    pub redraw_at: Option<u64>,
}

/// A sensor whose content has not come into view.
pub open spec fn unseen() -> SensorState {
    SensorState { has_popped_in: false, should_notify_at: None }
}

/// The state after the key was looked at: content that came into view under
/// another key counts as not in view, and a notice that was due is dropped.
pub open spec fn rekeyed(state: SensorState, frame: Frame) -> SensorState {
    if state.has_popped_in && frame.key_changed {
        unseen()
    } else {
        state
    }
}

/// The state after the place of the content was looked at. Content that
/// comes near is in view, and the host is to hear of it after the delay.
/// Content in view that is no longer near is out of view where the host wants
/// to hear of that, and it is to hear of it after the delay.
pub open spec fn placed(state: SensorState, config: SensorConfig, frame: Frame) -> SensorState {
    if !config.on_show {
        state
    } else if state.has_popped_in {
        if !frame.near && config.on_hide {
            SensorState {
                has_popped_in: false,
                should_notify_at: Some(
                    Notice { popped_in: false, at: (frame.now + config.delay) as u64 },
                ),
            }
        } else {
            state
        }
    } else if frame.near {
        SensorState {
            has_popped_in: true,
            should_notify_at: Some(Notice { popped_in: true, at: (frame.now + config.delay) as u64 }),
        }
    } else {
        state
    }
}

/// Whether the host hears at this redraw that the content changed its size:
/// it asked for it, the size changed, and either it did not ask to hear that
/// the content came into view, or the content is in view and near.
pub open spec fn resized(state: SensorState, config: SensorConfig, frame: Frame) -> bool {
    config.on_resize && frame.size_changed && (!config.on_show || (state.has_popped_in
        && frame.near))
}

/// The time from which the notice that is due is to be given.
pub open spec fn due_time(state: SensorState) -> u64 {
    match state.should_notify_at {
        Some(notice) => notice.at,
        None => 0,
    }
}

/// Whether the notice that is due says that the content came into view.
pub open spec fn announces_show(state: SensorState) -> bool {
    match state.should_notify_at {
        Some(notice) => notice.popped_in,
        None => false,
    }
}

/// Whether a notice is given at this redraw.
pub open spec fn is_due(state: SensorState, frame: Frame) -> bool {
    state.should_notify_at is Some && due_time(state) <= frame.now
}

/// The state after a redraw, and what the sensor does at it.
pub open spec fn reacted(state: SensorState, config: SensorConfig, frame: Frame) -> (
    SensorState,
    Reaction,
) {
    let keyed = rekeyed(state, frame);
    let seen = placed(keyed, config, frame);
    let due = is_due(seen, frame);
    (
        if due {
            SensorState { should_notify_at: None, ..seen }
        } else {
            seen
        },
        Reaction {
            remember_key: state.has_popped_in && frame.key_changed,
            remember_size: resized(keyed, config, frame) || (config.on_show
                && !keyed.has_popped_in && frame.near),
            publish_resize: resized(keyed, config, frame),
            publish_show: due && announces_show(seen) && config.on_show,
            publish_hide: due && !announces_show(seen) && config.on_hide,
            redraw_at: if !due && seen.should_notify_at is Some {
                Some(due_time(seen))
            } else {
                None
            },
        },
    )
}

impl SensorState {
    /// The state of a sensor whose content has not come into view.
    pub fn new() -> (state: Self)
        ensures
            state == unseen(),
    {
        SensorState { has_popped_in: false, should_notify_at: None }
    }

    /// Takes a redraw and says what the sensor does at it. The host forgets
    /// what it wants to hear when the content goes out of view once it has
    /// heard it.
    pub fn on_redraw(&mut self, config: SensorConfig, frame: Frame) -> (reaction: Reaction)
        requires
            frame.now + config.delay <= u64::MAX,
        ensures
            (*final(self), reaction) == reacted(*old(self), config, frame),
    {
        let mut reaction = Reaction {
            remember_key: false,
            remember_size: false,
            publish_resize: false,
            publish_show: false,
            publish_hide: false,
            redraw_at: None,
        };
        if self.has_popped_in && frame.key_changed {
            self.has_popped_in = false;
            self.should_notify_at = None;
            reaction.remember_key = true;
        }
        if !config.on_show {
            if config.on_resize && frame.size_changed {
                reaction.remember_size = true;
                reaction.publish_resize = true;
            }
        } else if self.has_popped_in {
            if frame.near {
                if config.on_resize && frame.size_changed {
                    reaction.remember_size = true;
                    reaction.publish_resize = true;
                }
            } else if config.on_hide {
                self.has_popped_in = false;
                self.should_notify_at = Some(
                    Notice { popped_in: false, at: frame.now + config.delay },
                );
            }
        } else if frame.near {
            self.has_popped_in = true;
            self.should_notify_at = Some(Notice { popped_in: true, at: frame.now + config.delay });
            reaction.remember_size = true;
        }
        match self.should_notify_at {
            Some(Notice { popped_in, at }) => {
                if at <= frame.now {
                    if popped_in {
                        reaction.publish_show = config.on_show;
                    } else {
                        reaction.publish_hide = config.on_hide;
                    }
                    self.should_notify_at = None;
                } else {
                    reaction.redraw_at = Some(at);
                }
            },
            None => {},
        }
        reaction
    }
}

/// Content that is in view is not announced again while it stays near: the
/// host hears that it came into view at most once until it goes out of view
/// or the key changes.
pub proof fn lemma_shown_once(state: SensorState, config: SensorConfig, frame: Frame)
    requires
        state.has_popped_in,
        state.should_notify_at is None,
        !frame.key_changed,
    ensures
        !reacted(state, config, frame).1.publish_show,
{
}

/// A notice is never given before its delay has passed.
pub proof fn lemma_notice_waits(state: SensorState, config: SensorConfig, frame: Frame)
    requires
        state == unseen(),
        config.on_show,
        config.delay > 0,
        frame.near,
        frame.now + config.delay <= u64::MAX,
    ensures
        !reacted(state, config, frame).1.publish_show,
        reacted(state, config, frame).1.redraw_at == Some((frame.now + config.delay) as u64),
        reacted(state, config, frame).0.has_popped_in,
{
}

} // verus!
