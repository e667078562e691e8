pub mod calculate;
pub mod database;
pub mod devices;
pub mod info;
pub mod summary;

pub use calculate::CalculateArgs;
pub use database::DatabaseArgs;
pub use devices::DevicesArgs;
pub use info::InfoArgs;
pub use summary::SummaryArgs;
