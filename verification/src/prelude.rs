//! The names that most users of the library need.

pub use crate::application::HostApplication;
pub use crate::component::{BusDirection, ComponentHandler, MediaType, RestartFlags, WindowType};
pub use crate::editor::{KnobMode, ParameterFlags, ParameterInfo, StateStream};
pub use crate::error::Error;
pub use crate::host::{Builder, Host};
pub use crate::module::info::{Class, FactoryInfo, Info, CID};
pub use crate::plugin::{Plugin, ScannedPlugin};
pub use crate::processor::{
    BusFlags, BusInfo, BusType, InputParameterChanges, IoMode, OutputParameterChanges, ProcessData,
    ProcessMode, RoutingInfo,
};
pub use crate::run_loop::{MainThreadEvent, RunLoop};
pub use crate::unit::UnitHandler;
pub use crate::view::PlugFrame;
pub use vst3::Steinberg::ViewRect;
