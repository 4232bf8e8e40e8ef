pub mod criteria;
pub mod error;
pub mod record;
pub mod topic_name;
