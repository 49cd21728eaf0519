//! The small vocabulary that processor and controller share: media kinds,
//! bus directions, window kinds and restart flags.

use crate::error::Error;
use crate::util::str_eq;
use vstd::prelude::*;
use vstd::std_specs::convert::TryFromSpecImpl;

verus! {

/// Restart flag: the component has to be reloaded.
pub const RELOAD_COMPONENT: i32 = 1;

/// Restart flag: the bus configuration changed.
pub const IO_CHANGED: i32 = 2;

/// Restart flag: several parameter values changed.
pub const PARAM_VALUES_CHANGED: i32 = 4;

/// Restart flag: the latency changed.
pub const LATENCY_CHANGED: i32 = 8;

/// Restart flag: parameter titles, defaults or flags changed.
pub const PARAM_TITLES_CHANGED: i32 = 16;

/// Restart flag: the assignment of MIDI controllers changed.
pub const MIDI_CC_ASSIGNMENTS_CHANGED: i32 = 32;

/// Restart flag: the note expressions changed.
pub const NOTE_EXPRESSION_CHANGED: i32 = 64;

/// Restart flag: bus titles changed.
pub const IO_TITLES_CHANGED: i32 = 128;

/// Restart flag: the support for prefetching changed.
pub const PREFETCHABLE_SUPPORT_CHANGED: i32 = 256;

/// Restart flag: the routing changed.
pub const ROUTING_INFO_CHANGED: i32 = 512;

/// Restart flag: the key switches changed.
pub const KEYSWITCH_CHANGED: i32 = 1024;

/// What a plug-in asks its host to refresh, as a set of restart flags.
#[derive(Copy, Clone, Debug, PartialEq, Eq, Structural)]
pub struct RestartFlags {
    bits: i32,
}

impl RestartFlags {
    /// The flag word of this set.
    pub closed spec fn spec_bits(self) -> i32 {
        self.bits
    }

    /// The set that holds exactly the bits of `bits`, known or not.
    pub fn from_bits_retain(bits: i32) -> (flags: RestartFlags)
        ensures
            flags.spec_bits() == bits,
    {
        RestartFlags { bits }
    }

    /// The flag word of this set.
    #[verifier::when_used_as_spec(spec_bits)]
    pub fn bits(self) -> (bits: i32)
        ensures
            bits == self.spec_bits(),
    {
        self.bits
    }

    /// Whether every flag of `other` is in this set.
    pub fn contains(self, other: RestartFlags) -> (all: bool)
        ensures
            all == (self.spec_bits() & other.spec_bits() == other.spec_bits()),
    {
        (self.bits & other.bits) == other.bits
    }
}

/// What a plug-in calls to talk back to its host. `V` is the type of
/// normalized parameter values. The plug-in may call from any thread. A host
/// that does not care for a call leaves it as it is: not implemented.
pub trait ComponentHandler<V>: Sync + Send {
    /// Called when a parameter is about to be changed.
    fn begin_edit(&self, id: u32) -> Result<(), Error> {
        Err(Error::NotImplemented)
    }

    /// Called after a parameter has been changed.
    fn end_edit(&self, id: u32) -> Result<(), Error> {
        Err(Error::NotImplemented)
    }

    /// Called to tell the host the new value of a parameter.
    fn perform_edit(&self, id: u32, value: V) -> Result<(), Error> {
        Err(Error::NotImplemented)
    }

    /// Called to ask the host to restart the component, or to refresh what
    /// `flags` names.
    fn restart_component(&self, flags: RestartFlags) -> Result<(), Error> {
        Err(Error::NotImplemented)
    }

    /// Called before a group of parameter changes that belong together.
    fn start_group_edit(&self) -> Result<(), Error> {
        Err(Error::NotImplemented)
    }

    /// Called after a group of parameter changes that belong together.
    fn end_group_edit(&self) -> Result<(), Error> {
        Err(Error::NotImplemented)
    }

    /// Called to ask the host to open the editor named `name`.
    fn request_open_editor(&self, name: &str) -> Result<(), Error> {
        Err(Error::NotImplemented)
    }

    /// Called when state other than parameters changed: a dirty plug-in
    /// wants its state saved.
    fn set_dirty(&self, dirty: bool) -> Result<(), Error> {
        Err(Error::NotImplemented)
    }

    /// Called to ask the host to switch a bus on or off.
    fn request_bus_activation(
        &self,
        typ: MediaType,
        dir: BusDirection,
        index: i32,
        state: bool,
    ) -> Result<(), Error> {
        Err(Error::NotImplemented)
    }

    /// Called when a program list was updated.
    fn notify_program_list_change(&self, list_id: i32, program_index: i32) -> Result<(), Error> {
        Err(Error::NotImplemented)
    }

    /// Called when a unit was selected.
    fn notify_unit_selection(&self, unit_id: i32) -> Result<(), Error> {
        Err(Error::NotImplemented)
    }

    /// Called when the assignment of units to buses changed.
    fn notify_unit_by_bus_change(&self) -> Result<(), Error> {
        Err(Error::NotImplemented)
    }
}

/// The kind of data that a bus carries.
#[derive(Copy, Clone, Debug, PartialEq, Eq, Structural)]
pub enum MediaType {
    Audio,
    Event,
}

/// The direction of a bus, seen from the plug-in.
#[derive(Copy, Clone, Debug, PartialEq, Eq, Structural)]
pub enum BusDirection {
    Input,
    Output,
}

/// The kind of window that a view can be attached to.
#[derive(Copy, Clone, Debug, PartialEq, Eq, Structural)]
pub enum WindowType {
    HIView,
    HWND,
    NSView,
    UIView,
    X11,
}

/// The number that stands for `media_type` at the boundary.
pub open spec fn media_type_code(media_type: MediaType) -> i32 {
    match media_type {
        MediaType::Audio => 0,
        MediaType::Event => 1,
    }
}

/// The number that stands for `dir` at the boundary.
pub open spec fn bus_direction_code(dir: BusDirection) -> i32 {
    match dir {
        BusDirection::Input => 0,
        BusDirection::Output => 1,
    }
}

/// The media kind that `code` stands for; any other number is an invalid
/// argument.
pub open spec fn media_type_of(code: i32) -> Result<MediaType, Error> {
    if code == 0 {
        Ok(MediaType::Audio)
    } else if code == 1 {
        Ok(MediaType::Event)
    } else {
        Err(Error::InvalidArg)
    }
}

/// The bus direction that `code` stands for; any other number is an invalid
/// argument.
pub open spec fn bus_direction_of(code: i32) -> Result<BusDirection, Error> {
    if code == 0 {
        Ok(BusDirection::Input)
    } else if code == 1 {
        Ok(BusDirection::Output)
    } else {
        Err(Error::InvalidArg)
    }
}

impl MediaType {
    /// The number that stands for this media kind at the boundary.
    pub fn code(self) -> (code: i32)
        ensures
            code == media_type_code(self),
    {
        match self {
            MediaType::Audio => 0,
            MediaType::Event => 1,
        }
    }
}

impl BusDirection {
    /// The number that stands for this direction at the boundary.
    pub fn code(self) -> (code: i32)
        ensures
            code == bus_direction_code(self),
    {
        match self {
            BusDirection::Input => 0,
            BusDirection::Output => 1,
        }
    }
}

impl TryFrom<i32> for MediaType {
    type Error = Error;

    fn try_from(value: i32) -> (result: Result<MediaType, Error>) {
        if value == 0 {
            Ok(MediaType::Audio)
        } else if value == 1 {
            Ok(MediaType::Event)
        } else {
            Err(Error::InvalidArg)
        }
    }
}

impl TryFromSpecImpl<i32> for MediaType {
    open spec fn obeys_try_from_spec() -> bool {
        true
    }

    open spec fn try_from_spec(value: i32) -> Result<MediaType, Error> {
        media_type_of(value)
    }
}

impl TryFrom<i32> for BusDirection {
    type Error = Error;

    fn try_from(value: i32) -> (result: Result<BusDirection, Error>) {
        if value == 0 {
            Ok(BusDirection::Input)
        } else if value == 1 {
            Ok(BusDirection::Output)
        } else {
            Err(Error::InvalidArg)
        }
    }
}

impl TryFromSpecImpl<i32> for BusDirection {
    open spec fn obeys_try_from_spec() -> bool {
        true
    }

    open spec fn try_from_spec(value: i32) -> Result<BusDirection, Error> {
        bus_direction_of(value)
    }
}

/// What a request to switch a bus on or off names, once its numbers are
/// read: the media kind is looked at first.
pub open spec fn bus_activation_of(media_type: i32, dir: i32) -> Result<
    (MediaType, BusDirection),
    Error,
> {
    match media_type_of(media_type) {
        Ok(m) => match bus_direction_of(dir) {
            Ok(d) => Ok((m, d)),
            Err(e) => Err(e),
        },
        Err(e) => Err(e),
    }
}

/// Reads the bus that a plug-in asks to switch on or off. A media kind or a
/// direction that is not known is an invalid argument.
pub fn decode_bus_activation(media_type: i32, dir: i32) -> (result: Result<
    (MediaType, BusDirection),
    Error,
>)
    ensures
        result == bus_activation_of(media_type, dir),
{
    let m = match MediaType::try_from(media_type) {
        Ok(m) => m,
        Err(e) => {
            return Err(e);
        },
    };
    let d = match BusDirection::try_from(dir) {
        Ok(d) => d,
        Err(e) => {
            return Err(e);
        },
    };
    Ok((m, d))
}

/// The name of a window kind at the boundary.
pub open spec fn window_type_name(window: WindowType) -> Seq<char> {
    match window {
        WindowType::HIView => "HIView"@,
        WindowType::HWND => "HWND"@,
        WindowType::NSView => "NSView"@,
        WindowType::UIView => "UIView"@,
        WindowType::X11 => "X11EmbedWindowID"@,
    }
}

/// The window kind that `name` names; any other text is an invalid argument.
pub open spec fn window_type_of(name: Seq<char>) -> Result<WindowType, Error> {
    if name == "HIView"@ {
        Ok(WindowType::HIView)
    } else if name == "HWND"@ {
        Ok(WindowType::HWND)
    } else if name == "NSView"@ {
        Ok(WindowType::NSView)
    } else if name == "UIView"@ {
        Ok(WindowType::UIView)
    } else if name == "X11EmbedWindowID"@ {
        Ok(WindowType::X11)
    } else {
        Err(Error::InvalidArg)
    }
}

impl WindowType {
    /// The name of this window kind at the boundary.
    pub fn name(self) -> (name: &'static str)
        ensures
            name@ == window_type_name(self),
    {
        match self {
            WindowType::HIView => "HIView",
            WindowType::HWND => "HWND",
            WindowType::NSView => "NSView",
            WindowType::UIView => "UIView",
            WindowType::X11 => "X11EmbedWindowID",
        }
    }
}

impl<'a> TryFrom<&'a str> for WindowType {
    type Error = Error;

    fn try_from(value: &'a str) -> (result: Result<WindowType, Error>) {
        if str_eq(value, "HIView") {
            Ok(WindowType::HIView)
        } else if str_eq(value, "HWND") {
            Ok(WindowType::HWND)
        } else if str_eq(value, "NSView") {
            Ok(WindowType::NSView)
        } else if str_eq(value, "UIView") {
            Ok(WindowType::UIView)
        } else if str_eq(value, "X11EmbedWindowID") {
            Ok(WindowType::X11)
        } else {
            Err(Error::InvalidArg)
        }
    }
}

impl<'a> TryFromSpecImpl<&'a str> for WindowType {
    open spec fn obeys_try_from_spec() -> bool {
        true
    }

    open spec fn try_from_spec(value: &'a str) -> Result<WindowType, Error> {
        window_type_of(value@)
    }
}

/// Each media kind is read back from its number.
pub proof fn lemma_media_type_round_trip(media_type: MediaType)
    ensures
        media_type_of(media_type_code(media_type)) == Ok::<MediaType, Error>(media_type),
{
}

/// Each bus direction is read back from its number.
pub proof fn lemma_bus_direction_round_trip(dir: BusDirection)
    ensures
        bus_direction_of(bus_direction_code(dir)) == Ok::<BusDirection, Error>(dir),
{
}

} // verus!
