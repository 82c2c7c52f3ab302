//! Deleting a post: the decisions between the requests, as a state machine.
//!
//! The caller performs each action that `step` hands back (a request, or
//! asking the operator) and feeds its result back in as the next event.
use vstd::prelude::*;
use vstd::string::StringExecFns;
use crate::config::ResolvedConfig;
use crate::remote::{
    is_success, is_success_spec, lookup_url_spec, object_url_spec, row_url_spec,
    storage_object_url, table_lookup_url, table_row_url,
};
use crate::slugs::{normalize_slug, normalize_spec};

verus! {

/// How far a deletion has come.
#[derive(PartialEq, Eq, Structural, Clone, Copy, Debug)]
pub enum DeleteStage {
    /// Waiting for the answer to the storage probe.
    ProbingStorage,
    /// Waiting for the answer to the table probe.
    ProbingTable { in_storage: bool },
    /// Waiting for the operator's answer.
    Confirming { in_storage: bool, in_table: bool },
    /// Waiting for the answer to the storage delete.
    DeletingStorage { in_table: bool },
    /// Waiting for the answer to the table delete.
    DeletingTable,
    /// Nothing more to do.
    Finished,
}

/// A deletion in progress.
pub struct DeleteSession {
    /// The canonical slug of the post.
    pub slug: String,
    /// Keep the markdown object; remove the table row only.
    pub soft: bool,
    pub stage: DeleteStage,
    /// The address of the post's object in the bucket.
    pub object_url: String,
    /// The address that looks the post's row up.
    pub lookup_url: String,
    /// The address of the post's row.
    pub row_url: String,
}

/// What the caller learned from the last action.
pub enum DeleteEvent {
    /// The status of the existence probe on the object.
    StorageProbed { status: u16 },
    /// The answer to the row lookup, with the number of rows it held.
    TableProbed { status: u16, body: String, rows: usize },
    /// The operator's answer to the confirmation question.
    Answered { yes: bool },
    /// The answer to the delete of the object.
    StorageDeleted { status: u16, body: String },
    /// The answer to the delete of the row.
    TableDeleted { status: u16, body: String },
}

/// How a deletion ended, where it did not fail.
#[derive(PartialEq, Eq, Structural, Clone, Copy, Debug)]
pub enum DeleteOutcome {
    Deleted,
    /// The operator declined; nothing was changed.
    Aborted,
}

pub enum DeleteError {
    /// The slug is neither in the bucket nor in the table.
    NotFound { slug: String },
    /// The row lookup was answered with a failure status.
    TableCheckFailed { status: u16, body: String },
    /// The delete of the object was answered with a failure status.
    StorageDeleteFailed { status: u16, body: String },
    /// The delete of the row was answered with a failure status.
    MetadataDeleteFailed { status: u16, body: String },
    /// An event came that the session was not waiting for.
    UnexpectedEvent,
}

/// What the caller is to do next.
pub enum DeleteAction {
    /// Probe `object_url` for existence.
    ProbeStorage,
    /// Look the row up at `lookup_url`.
    ProbeTable,
    /// Ask the operator this question.
    Confirm { question: String },
    /// Delete the object at `object_url`.
    DeleteStorage,
    /// Delete the row at `row_url`.
    DeleteTable,
    /// Stop: the deletion is over.
    Finish { outcome: DeleteOutcome },
    /// Stop: the deletion failed.
    Fail { error: DeleteError },
}

/// The question put to the operator before anything is deleted.
pub open spec fn question_spec(slug: Seq<char>, soft: bool) -> Seq<char> {
    "Delete `"@ + slug + "`"@ + (if soft {
        " (soft delete: keep bucket file)"@
    } else {
        ""@
    }) + "?"@
}

/// The action asks to delete something.
pub open spec fn is_mutation(a: DeleteAction) -> bool {
    a is DeleteStorage || a is DeleteTable
}

pub open spec fn failed_with_status(a: DeleteAction, status: u16, body: String) -> bool {
    match a {
        DeleteAction::Fail { error: DeleteError::TableCheckFailed { status: s, body: b } } => s
            == status && b@ == body@,
        DeleteAction::Fail { error: DeleteError::StorageDeleteFailed { status: s, body: b } } => s
            == status && b@ == body@,
        DeleteAction::Fail { error: DeleteError::MetadataDeleteFailed { status: s, body: b } } => s
            == status && b@ == body@,
        _ => false,
    }
}

pub open spec fn finished_with(post: DeleteSession, a: DeleteAction, o: DeleteOutcome) -> bool {
    post.stage == DeleteStage::Finished && a == (DeleteAction::Finish { outcome: o })
}

/// One step of a deletion: from `pre`, on event `e`, the session becomes
/// `post` and asks for `a`.
pub open spec fn step_matches(
    pre: DeleteSession,
    e: DeleteEvent,
    post: DeleteSession,
    a: DeleteAction,
) -> bool {
    &&& post.slug == pre.slug
    &&& post.soft == pre.soft
    &&& post.object_url == pre.object_url
    &&& post.lookup_url == pre.lookup_url
    &&& post.row_url == pre.row_url
    &&& match (pre.stage, e) {
        (DeleteStage::ProbingStorage, DeleteEvent::StorageProbed { status }) => post.stage
            == (DeleteStage::ProbingTable { in_storage: is_success_spec(status) }) && a
            is ProbeTable,
        (DeleteStage::ProbingTable { in_storage }, DeleteEvent::TableProbed { status, body, rows }) => {
            if !is_success_spec(status) {
                post.stage == DeleteStage::Finished && failed_with_status(a, status, body)
                    && a->error is TableCheckFailed
            } else if !in_storage && rows == 0 {
                post.stage == DeleteStage::Finished && (a matches DeleteAction::Fail {
                    error: DeleteError::NotFound { slug },
                } && slug@ == pre.slug@)
            } else {
                post.stage == (DeleteStage::Confirming { in_storage, in_table: rows > 0 })
                    && (a matches DeleteAction::Confirm { question } && question@ == question_spec(
                    pre.slug@,
                    pre.soft,
                ))
            }
        },
        (DeleteStage::Confirming { in_storage, in_table }, DeleteEvent::Answered { yes }) => {
            if !yes {
                finished_with(post, a, DeleteOutcome::Aborted)
            } else if !pre.soft && in_storage {
                post.stage == (DeleteStage::DeletingStorage { in_table }) && a is DeleteStorage
            } else if in_table {
                post.stage == DeleteStage::DeletingTable && a is DeleteTable
            } else {
                finished_with(post, a, DeleteOutcome::Deleted)
            }
        },
        (DeleteStage::DeletingStorage { in_table }, DeleteEvent::StorageDeleted { status, body }) => {
            if !is_success_spec(status) {
                post.stage == DeleteStage::Finished && failed_with_status(a, status, body)
                    && a->error is StorageDeleteFailed
            } else if in_table {
                post.stage == DeleteStage::DeletingTable && a is DeleteTable
            } else {
                finished_with(post, a, DeleteOutcome::Deleted)
            }
        },
        (DeleteStage::DeletingTable, DeleteEvent::TableDeleted { status, body }) => {
            if !is_success_spec(status) {
                post.stage == DeleteStage::Finished && failed_with_status(a, status, body)
                    && a->error is MetadataDeleteFailed
            } else {
                finished_with(post, a, DeleteOutcome::Deleted)
            }
        },
        _ => post.stage == DeleteStage::Finished && a matches DeleteAction::Fail {
            error: DeleteError::UnexpectedEvent,
        },
    }
}

fn question(slug: &str, soft: bool) -> (r: String)
    ensures
        r@ == question_spec(slug@, soft),
{
    let mut q = String::from_str("Delete `");
    q.append(slug);
    q.append("`");
    if soft {
        q.append(" (soft delete: keep bucket file)");
    } else {
        proof {
            reveal_strlit("");
            assert(q@ + ""@ =~= q@);
        }
    }
    q.append("?");
    q
}

impl DeleteSession {
    /// Starts deleting `slug` under `config`: the slug is normalized, and the
    /// first thing to do is to probe the bucket.
    pub fn new(config: &ResolvedConfig, slug: &str, soft: bool) -> (r: (DeleteSession, DeleteAction))
        ensures
            r.0.slug@ == normalize_spec(slug@),
            r.0.soft == soft,
            r.0.stage == DeleteStage::ProbingStorage,
            r.0.object_url@ == object_url_spec(
                config.supabase_url@,
                config.bucket@,
                normalize_spec(slug@),
            ),
            r.0.lookup_url@ == lookup_url_spec(
                config.supabase_url@,
                config.table@,
                normalize_spec(slug@),
            ),
            r.0.row_url@ == row_url_spec(
                config.supabase_url@,
                config.table@,
                normalize_spec(slug@),
            ),
            r.1 is ProbeStorage,
    {
        let s = normalize_slug(slug);
        let object_url = storage_object_url(
            config.supabase_url.as_str(),
            config.bucket.as_str(),
            s.as_str(),
        );
        let lookup_url = table_lookup_url(
            config.supabase_url.as_str(),
            config.table.as_str(),
            s.as_str(),
        );
        let row_url = table_row_url(config.supabase_url.as_str(), config.table.as_str(), s.as_str());
        (
            DeleteSession {
                slug: s,
                soft,
                stage: DeleteStage::ProbingStorage,
                object_url,
                lookup_url,
                row_url,
            },
            DeleteAction::ProbeStorage,
        )
    }

    /// Takes in the result of the last action and says what to do next.
    pub fn step(&mut self, e: DeleteEvent) -> (a: DeleteAction)
        ensures
            step_matches(*old(self), e, *final(self), a),
    {
        let stage = self.stage;
        match e {
            DeleteEvent::StorageProbed { status } => {
                if stage == DeleteStage::ProbingStorage {
                    self.stage = DeleteStage::ProbingTable { in_storage: is_success(status) };
                    return DeleteAction::ProbeTable;
                }
            },
            DeleteEvent::TableProbed { status, body, rows } => {
                if let DeleteStage::ProbingTable { in_storage } = stage {
                    if !is_success(status) {
                        self.stage = DeleteStage::Finished;
                        return DeleteAction::Fail {
                            error: DeleteError::TableCheckFailed { status, body },
                        };
                    } else if !in_storage && rows == 0 {
                        self.stage = DeleteStage::Finished;
                        return DeleteAction::Fail {
                            error: DeleteError::NotFound { slug: self.slug.clone() },
                        };
                    } else {
                        self.stage = DeleteStage::Confirming { in_storage, in_table: rows > 0 };
                        return DeleteAction::Confirm {
                            question: question(self.slug.as_str(), self.soft),
                        };
                    }
                }
            },
            DeleteEvent::Answered { yes } => {
                if let DeleteStage::Confirming { in_storage, in_table } = stage {
                    if !yes {
                        self.stage = DeleteStage::Finished;
                        return DeleteAction::Finish { outcome: DeleteOutcome::Aborted };
                    } else if !self.soft && in_storage {
                        self.stage = DeleteStage::DeletingStorage { in_table };
                        return DeleteAction::DeleteStorage;
                    } else if in_table {
                        self.stage = DeleteStage::DeletingTable;
                        return DeleteAction::DeleteTable;
                    } else {
                        self.stage = DeleteStage::Finished;
                        return DeleteAction::Finish { outcome: DeleteOutcome::Deleted };
                    }
                }
            },
            DeleteEvent::StorageDeleted { status, body } => {
                if let DeleteStage::DeletingStorage { in_table } = stage {
                    if !is_success(status) {
                        self.stage = DeleteStage::Finished;
                        return DeleteAction::Fail {
                            error: DeleteError::StorageDeleteFailed { status, body },
                        };
                    } else if in_table {
                        self.stage = DeleteStage::DeletingTable;
                        return DeleteAction::DeleteTable;
                    } else {
                        self.stage = DeleteStage::Finished;
                        return DeleteAction::Finish { outcome: DeleteOutcome::Deleted };
                    }
                }
            },
            DeleteEvent::TableDeleted { status, body } => {
                if stage == DeleteStage::DeletingTable {
                    self.stage = DeleteStage::Finished;
                    if !is_success(status) {
                        return DeleteAction::Fail {
                            error: DeleteError::MetadataDeleteFailed { status, body },
                        };
                    } else {
                        return DeleteAction::Finish { outcome: DeleteOutcome::Deleted };
                    }
                }
            },
        }
        self.stage = DeleteStage::Finished;
        DeleteAction::Fail { error: DeleteError::UnexpectedEvent }
    }
}


/// A soft deletion never asks to delete the stored object.
pub proof fn lemma_soft_keeps_object(
    pre: DeleteSession,
    e: DeleteEvent,
    post: DeleteSession,
    a: DeleteAction,
)
    requires
        step_matches(pre, e, post, a),
        pre.soft,
    ensures
        !(a is DeleteStorage),
        post.soft,
{
}

/// A soft deletion of a post in both places, once confirmed, asks to delete
/// the row; after that row delete succeeds it is over, with no further request.
pub proof fn lemma_soft_deletes_row_once(
    pre: DeleteSession,
    post: DeleteSession,
    a: DeleteAction,
    status: u16,
    body: String,
    last: DeleteSession,
    b: DeleteAction,
)
    requires
        pre.soft,
        pre.stage == (DeleteStage::Confirming { in_storage: true, in_table: true }),
        step_matches(pre, DeleteEvent::Answered { yes: true }, post, a),
        is_success_spec(status),
        step_matches(post, DeleteEvent::TableDeleted { status, body }, last, b),
    ensures
        a is DeleteTable,
        post.stage == DeleteStage::DeletingTable,
        b == (DeleteAction::Finish { outcome: DeleteOutcome::Deleted }),
        last.stage == DeleteStage::Finished,
{
}

/// Nothing is deleted but on the operator's yes, or after a storage delete
/// that such a yes asked for.
pub proof fn lemma_mutation_needs_yes(
    pre: DeleteSession,
    e: DeleteEvent,
    post: DeleteSession,
    a: DeleteAction,
)
    requires
        step_matches(pre, e, post, a),
        is_mutation(a),
    ensures
        (pre.stage is Confirming && e == (DeleteEvent::Answered { yes: true }))
            || pre.stage is DeletingStorage,
{
}

/// A slug found neither in the bucket nor in the table fails as not found,
/// and the session is over.
pub proof fn lemma_absent_not_found(
    pre: DeleteSession,
    status: u16,
    body: String,
    post: DeleteSession,
    a: DeleteAction,
)
    requires
        pre.stage == (DeleteStage::ProbingTable { in_storage: false }),
        is_success_spec(status),
        step_matches(pre, DeleteEvent::TableProbed { status, body, rows: 0 }, post, a),
    ensures
        a matches DeleteAction::Fail { error: DeleteError::NotFound { slug } } && slug@
            == pre.slug@,
        post.stage == DeleteStage::Finished,
{
}

/// A finished session asks for no request, whatever comes.
pub proof fn lemma_finished_is_inert(
    pre: DeleteSession,
    e: DeleteEvent,
    post: DeleteSession,
    a: DeleteAction,
)
    requires
        step_matches(pre, e, post, a),
        pre.stage == DeleteStage::Finished,
    ensures
        !is_mutation(a),
        !(a is ProbeStorage || a is ProbeTable),
        post.stage == DeleteStage::Finished,
{
}

/// A declined confirmation ends the session without a change.
pub proof fn lemma_declined_aborts(
    pre: DeleteSession,
    post: DeleteSession,
    a: DeleteAction,
)
    requires
        pre.stage is Confirming,
        step_matches(pre, DeleteEvent::Answered { yes: false }, post, a),
    ensures
        a == (DeleteAction::Finish { outcome: DeleteOutcome::Aborted }),
        post.stage == DeleteStage::Finished,
{
}

} // verus!
