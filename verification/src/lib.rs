//! A small quick-setting service modelled as a pure state machine.
//!
//! Two state records are exposed over an object bus by the surrounding
//! process: a toggle with a countdown (`QuickSetting`) and its companion
//! status panel (`QuickSettingStatus`). Every handler here mutates the
//! state and reports, in order, which change signals the caller must
//! broadcast; the bus transport itself stays outside the library.

pub mod decimal;
pub mod quick_setting;
pub mod status;

pub use decimal::i32_to_decimal;
pub use decimal::u64_to_decimal;
pub use quick_setting::QuickSetting;
pub use quick_setting::QuickSettingSignal;
pub use status::QuickSettingStatus;
pub use status::StatusSignal;
