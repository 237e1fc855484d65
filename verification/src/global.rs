//! What every arena shares: the role tag kept on a creep, and the lookups
//! into the lists that the host hands over.

pub mod role;
pub mod utilities;
