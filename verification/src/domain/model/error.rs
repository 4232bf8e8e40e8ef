use vstd::prelude::*;
use crate::domain::model::topic_name::TopicName;

verus! {

/// Why an item of a query, or the query as a whole, failed.
#[derive(Debug, PartialEq)]
pub enum QueryError {
    /// No scan could be opened on the topic. Scanning goes on with the other topics.
    TopicOpenFailed(TopicName),
    /// One record could not be decoded. Scanning goes on with the next record.
    RecordDecodeFailed { topic: TopicName, partition: u32, offset: u64 },
    /// The session itself failed. Nothing follows this error.
    SessionFatal(String),
}

/// A query error as mathematical values.
pub enum QueryErrorView {
    TopicOpenFailed(Seq<char>),
    RecordDecodeFailed { topic: Seq<char>, partition: u32, offset: u64 },
    SessionFatal(Seq<char>),
}

impl View for QueryError {
    type V = QueryErrorView;

    open spec fn view(&self) -> QueryErrorView {
        match self {
            QueryError::TopicOpenFailed(topic) => QueryErrorView::TopicOpenFailed(topic@),
            QueryError::RecordDecodeFailed { topic, partition, offset } =>
                QueryErrorView::RecordDecodeFailed {
                    topic: topic@,
                    partition: *partition,
                    offset: *offset,
                },
            QueryError::SessionFatal(cause) => QueryErrorView::SessionFatal(cause@),
        }
    }
}

impl QueryError {
    /// Whether the stream ends with this error.
    pub fn is_fatal(&self) -> (fatal: bool)
        ensures
            fatal == (self@ is SessionFatal),
    {
        match self {
            QueryError::SessionFatal(_) => true,
            _ => false,
        }
    }
}

} // verus!
