pub mod decimal;
pub mod dispatch;
pub mod energy;
pub mod laws;
pub mod output;
pub mod wall_time;

pub use decimal::Ratio;
pub use dispatch::{process_pulse, LoopAction};
pub use energy::{ComputationError, EdgeEvent, NrjEvent, NrjEventState};
pub use output::JsonEvent;
pub use wall_time::WallTime;
