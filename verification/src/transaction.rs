use vstd::prelude::*;

use crate::status::Status;

verus! {

/// A log entry for a single `Transaction` between two applications.
#[derive(Clone, Debug)]
pub struct Transaction {
    /// The name of the originating application.
    pub from: String,

    /// The name of the target application.
    pub to: String,

    /// A [`Status`] flag indicating whether the `Transaction` was successful or not.
    pub status: Status,

    /// The timestamp when the `Transaction` took place, in milliseconds.
    pub timestamp: u128,

    /// The operation of the `Transaction`.
    pub operation: String,

    /// The integration segment of the `Transaction`.
    pub integration_segment: String,

    /// The ID for the whole logical flow of `Transaction`s.
    pub flow_id: String,

    /// The type of payload in the `Transaction` (optional).
    pub payload_type: Option<String>,

    /// A possible log message (optional).
    pub message: Option<String>,

    /// All IDs related to this `Transaction` (optional).
    pub ids: Option<Vec<TransactionId>>,

    /// All metadata related to this `Transaction` (optional).
    pub metadata: Option<Vec<TransactionMetadata>>,
}

/// Container for IDs of a single type.
#[derive(Clone, PartialEq, Debug)]
pub struct TransactionId {
    /// The type of the ID.
    pub id_type: String,

    /// The actual ID values for this type.
    pub values: Vec<String>,
}

/// A name/value pair for generic metadata.
#[derive(Clone, Debug)]
pub struct TransactionMetadata {
    /// The name of the metadata.
    pub name: String,

    /// The value of the metadata.
    pub value: String,
}

/// The IDs attached to a transaction so far, in attachment order
/// (none attached and an empty list read the same way).
pub open spec fn ids_seq(t: Transaction) -> Seq<TransactionId> {
    match t.ids {
        Some(v) => v@,
        None => Seq::empty(),
    }
}

/// The metadata attached to a transaction so far, in attachment order
/// (none attached and an empty list read the same way).
pub open spec fn metadata_seq(t: Transaction) -> Seq<TransactionMetadata> {
    match t.metadata {
        Some(v) => v@,
        None => Seq::empty(),
    }
}

impl Transaction {
    /// Constructs a single `Transaction` with the mandatory values; the
    /// optional fields start out absent.
    pub fn new(
        from: String,
        to: String,
        operation: String,
        status: Status,
        timestamp: u128,
        flow_id: String,
        integration_segment: String,
    ) -> (r: Self)
        ensures
            r.from == from,
            r.to == to,
            r.operation == operation,
            r.status == status,
            r.timestamp == timestamp,
            r.flow_id == flow_id,
            r.integration_segment == integration_segment,
            r.payload_type is None,
            r.message is None,
            r.ids is None,
            r.metadata is None,
    {
        Transaction {
            from,
            to,
            status,
            timestamp,
            operation,
            flow_id,
            integration_segment,
            payload_type: None,
            message: None,
            ids: None,
            metadata: None,
        }
    }

    /// Appends a metadata entry to the `Transaction`, keeping everything
    /// else as it was.
    pub fn add_metadata(&mut self, metadata: TransactionMetadata)
        ensures
            final(self).metadata is Some,
            metadata_seq(*final(self)) == metadata_seq(*old(self)).push(metadata),
            final(self).from == old(self).from,
            final(self).to == old(self).to,
            final(self).operation == old(self).operation,
            final(self).status == old(self).status,
            final(self).timestamp == old(self).timestamp,
            final(self).flow_id == old(self).flow_id,
            final(self).integration_segment == old(self).integration_segment,
            final(self).payload_type == old(self).payload_type,
            final(self).message == old(self).message,
            final(self).ids == old(self).ids,
    {
        let current = self.metadata.take();
        match current {
            Some(mut m) => {
                m.push(metadata);
                self.metadata = Some(m);
            }
            None => {
                let mut m: Vec<TransactionMetadata> = Vec::new();
                m.push(metadata);
                self.metadata = Some(m);
                proof {
                    assert(metadata_seq(*old(self)).push(metadata) =~= metadata_seq(*self));
                }
            }
        }
    }

    /// Appends an ID entry to the `Transaction`, keeping everything else
    /// as it was.
    pub fn add_id(&mut self, id: TransactionId)
        ensures
            final(self).ids is Some,
            ids_seq(*final(self)) == ids_seq(*old(self)).push(id),
            final(self).from == old(self).from,
            final(self).to == old(self).to,
            final(self).operation == old(self).operation,
            final(self).status == old(self).status,
            final(self).timestamp == old(self).timestamp,
            final(self).flow_id == old(self).flow_id,
            final(self).integration_segment == old(self).integration_segment,
            final(self).payload_type == old(self).payload_type,
            final(self).message == old(self).message,
            final(self).metadata == old(self).metadata,
    {
        let current = self.ids.take();
        match current {
            Some(mut ids) => {
                ids.push(id);
                self.ids = Some(ids);
            }
            None => {
                let mut ids: Vec<TransactionId> = Vec::new();
                ids.push(id);
                self.ids = Some(ids);
                proof {
                    assert(ids_seq(*old(self)).push(id) =~= ids_seq(*self));
                }
            }
        }
    }
}

impl TransactionMetadata {
    /// Constructs a new [`TransactionMetadata`].
    pub fn new(name: String, value: String) -> (r: Self)
        ensures
            r.name == name,
            r.value == value,
    {
        TransactionMetadata { name, value }
    }
}

impl TransactionId {
    /// Constructs a new [`TransactionId`].
    pub fn new(id_type: String, values: Vec<String>) -> (r: Self)
        ensures
            r.id_type == id_type,
            r.values == values,
    {
        TransactionId { id_type, values }
    }
}

} // verus!
