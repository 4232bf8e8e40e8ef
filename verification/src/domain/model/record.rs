use vstd::prelude::*;
use crate::domain::model::topic_name::TopicName;

verus! {

/// One message read from a topic.
#[derive(Debug, PartialEq)]
pub struct Record {
    pub topic: TopicName,
    pub partition: u32,
    /// Position within the partition; grows from one record of a partition to the next.
    pub offset: u64,
    pub key: Option<Vec<u8>>,
    pub value: Option<Vec<u8>>,
    pub timestamp: i64,
}

/// What a record holds, as mathematical values.
pub struct RecordView {
    pub topic: Seq<char>,
    pub partition: u32,
    pub offset: u64,
    pub key: Option<Seq<u8>>,
    pub value: Option<Seq<u8>>,
    pub timestamp: i64,
}

/// The bytes of an optional byte string.
pub open spec fn bytes_view(bytes: Option<Vec<u8>>) -> Option<Seq<u8>> {
    match bytes {
        Some(b) => Some(b@),
        None => None,
    }
}

impl View for Record {
    type V = RecordView;

    open spec fn view(&self) -> RecordView {
        RecordView {
            topic: self.topic@,
            partition: self.partition,
            offset: self.offset,
            key: bytes_view(self.key),
            value: bytes_view(self.value),
            timestamp: self.timestamp,
        }
    }
}

} // verus!
