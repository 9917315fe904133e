mod raw_id;

pub use raw_id::RawId;
