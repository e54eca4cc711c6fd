//! Read-side data model for a turn-based game: turn records, the
//! latest-pointer resolver, and roll lookup.

mod records;
mod resolver;
mod roll;
mod turn_index;

pub use records::Error;
pub use records::LastTurn;
pub use records::Latest;
pub use records::PastTurn;
pub use records::Roll;
pub use records::RollRow;
pub use records::Turn;
pub use records::TurnInfo;
pub use resolver::max_day_in;
pub use resolver::max_season;
pub use resolver::min_active_day;
pub use resolver::Resolution;
