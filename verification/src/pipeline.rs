//! The remote-mode delivery pipeline.
//!
//! The pipeline is a state machine driven by a loop outside this crate: each
//! returned [`StoreAction`] names the one remote call to perform next, and
//! [`RemotePipeline::step`] takes the store's answer and decides what
//! follows. Downloads that fail are skipped; the downloaded payloads are
//! wrapped one by one into single-entry archive fragments, uploaded as
//! contiguously numbered parts, and the session is completed exactly once,
//! after the queue has been closed and drained. A failed part upload,
//! session creation or completion is fatal.
//!
//! A caution on framing: every part is an independently finalized
//! single-entry archive image, which is how the observed store traffic
//! frames the object. Concatenating such self-terminated images, as the
//! completed multipart object does, does not in general yield one
//! well-formed archive, since each image carries its own central
//! directory. The framing is reproduced here deliberately; the fallback
//! mode instead writes a single well-formed archive.

use vstd::prelude::*;

use crate::archive::build_entry_fragment;
use crate::archive::encodable_entry;
use crate::archive::fragment_bytes;
use crate::models::DownloadedItem;
use crate::models::FileS3;
use crate::models::PartDescriptor;
use crate::models::PipelineError;
use crate::models::ZipFileS3;
use crate::queue::ItemQueue;

verus! {

/// Where the pipeline stands between two store events.
pub enum Phase {
    /// The session-create call is in flight.
    AwaitSession,
    /// The download of the next object is in flight.
    AwaitDownload,
    /// A part upload is in flight.
    AwaitUpload,
    /// The completion call is in flight.
    AwaitComplete,
    /// The run succeeded; the target object is visible.
    Finished,
    /// The run failed fatally.
    Failed(PipelineError),
}

/// The store's answer to the action last performed.
pub enum StoreEvent {
    /// Session created; carries the upload id.
    SessionCreated(String),
    SessionCreateFailed,
    /// The pending download succeeded; carries the object's bytes.
    Downloaded(Vec<u8>),
    DownloadFailed,
    /// The pending part upload succeeded; carries the entity tag.
    PartUploaded(String),
    PartUploadFailed,
    Completed,
    CompleteFailed,
}

/// The next remote call the driver must perform, or the run's outcome.
pub enum StoreAction {
    CreateSession { key: String },
    Download { key: String },
    UploadPart { key: String, upload_id: String, part_number: u32, body: Vec<u8> },
    Complete { key: String, upload_id: String },
    /// The run is over and succeeded.
    Finish,
    /// The run is over and failed.
    Abort(PipelineError),
}

/// The entry names of the request's objects, in order.
pub open spec fn entry_names(objects: Seq<FileS3>) -> Seq<Seq<char>> {
    objects.map(|i: int, f: FileS3| f.name@)
}

/// The (name, payload) pairs of the downloads that succeeded, in input
/// order: the entries the archive will hold.
pub open spec fn successful_items(names: Seq<Seq<char>>, outcomes: Seq<Option<Seq<u8>>>) -> Seq<
    (Seq<char>, Seq<u8>),
>
    decreases outcomes.len(),
{
    if outcomes.len() == 0 {
        Seq::empty()
    } else {
        let prefix = successful_items(names, outcomes.drop_last());
        match outcomes.last() {
            Some(p) => prefix.push((names[outcomes.len() - 1], p)),
            None => prefix,
        }
    }
}

/// The archive fragments of the given items: one single-entry archive each.
pub open spec fn fragment_seq(items: Seq<(Seq<char>, Seq<u8>)>) -> Seq<Seq<u8>> {
    items.map(|i: int, it: (Seq<char>, Seq<u8>)| fragment_bytes(it.0, it.1))
}

/// There are no more successful downloads than downloads.
proof fn lemma_successful_items_len(names: Seq<Seq<char>>, outcomes: Seq<Option<Seq<u8>>>)
    ensures
        successful_items(names, outcomes).len() <= outcomes.len(),
    decreases outcomes.len(),
{
    if outcomes.len() > 0 {
        lemma_successful_items_len(names, outcomes.drop_last());
    }
}

/// The remote-mode pipeline. The ghost fields record the run's history:
/// each download's outcome, the bodies of the parts uploaded so far, the
/// item whose part upload is in flight, and how many completion calls were
/// issued.
pub struct RemotePipeline {
    pub target_key: String,
    pub objects: Vec<FileS3>,
    /// How many downloads have resolved, in success or failure.
    pub attempted: usize,
    pub queue: ItemQueue,
    pub upload_id: Option<String>,
    pub parts: Vec<PartDescriptor>,
    pub phase: Phase,
    pub outcomes: Ghost<Seq<Option<Seq<u8>>>>,
    pub uploaded: Ghost<Seq<Seq<u8>>>,
    pub pending: Ghost<Option<(Seq<char>, Seq<u8>)>>,
    pub completes: Ghost<int>,
}

impl RemotePipeline {
    /// The entry names of this run's objects.
    pub open spec fn names(self) -> Seq<Seq<char>> {
        entry_names(self.objects@)
    }

    /// The entries of the archive under construction: one per successful
    /// download, in input order.
    pub open spec fn succ(self) -> Seq<(Seq<char>, Seq<u8>)> {
        successful_items(self.names(), self.outcomes@)
    }

    /// The pipeline's invariant, established by `start` and preserved by
    /// `step`.
    pub open spec fn wf(self) -> bool {
        &&& self.objects@.len() <= 0xffff_fffe
        &&& self.attempted <= self.objects@.len()
        &&& self.outcomes@.len() == self.attempted
        &&& self.parts@.len() == self.uploaded@.len()
        &&& (forall|i: int|
            0 <= i < self.parts@.len() ==> (#[trigger] self.parts@[i].part_number) == i + 1)
        &&& self.queue.slot is None
        &&& 0 <= self.completes@ <= 1
        &&& (self.completes@ == 1 ==> self.attempted == self.objects@.len() && self.queue.closed)
        &&& match self.phase {
            Phase::AwaitSession => {
                &&& self.attempted == 0
                &&& self.parts@.len() == 0
                &&& self.upload_id is None
                &&& self.completes@ == 0
                &&& self.pending@ is None
                &&& !self.queue.closed
                &&& self.uploaded@ == fragment_seq(self.succ())
            },
            Phase::AwaitDownload => {
                &&& self.upload_id is Some
                &&& self.attempted < self.objects@.len()
                &&& self.pending@ is None
                &&& self.completes@ == 0
                &&& !self.queue.closed
                &&& self.uploaded@ == fragment_seq(self.succ())
            },
            Phase::AwaitUpload => {
                &&& self.upload_id is Some
                &&& self.pending@ is Some
                &&& self.completes@ == 0
                &&& !self.queue.closed
                &&& self.succ().len() > 0
                &&& self.pending@->0 == self.succ().last()
                &&& self.uploaded@ == fragment_seq(self.succ().drop_last())
            },
            Phase::AwaitComplete => {
                &&& self.upload_id is Some
                &&& self.attempted == self.objects@.len()
                &&& self.pending@ is None
                &&& self.completes@ == 1
                &&& self.queue.closed
                &&& self.uploaded@ == fragment_seq(self.succ())
            },
            Phase::Finished => {
                &&& self.attempted == self.objects@.len()
                &&& self.pending@ is None
                &&& self.completes@ == 1
                &&& self.queue.closed
                &&& self.uploaded@ == fragment_seq(self.succ())
            },
            Phase::Failed(_) => true,
        }
    }

    /// Which events can answer the action the pipeline is waiting on.
    pub open spec fn accepts(self, ev: StoreEvent) -> bool {
        match self.phase {
            Phase::AwaitSession => ev is SessionCreated || ev is SessionCreateFailed,
            Phase::AwaitDownload => ev is Downloaded || ev is DownloadFailed,
            Phase::AwaitUpload => ev is PartUploaded || ev is PartUploadFailed,
            Phase::AwaitComplete => ev is Completed || ev is CompleteFailed,
            Phase::Finished => false,
            Phase::Failed(_) => false,
        }
    }

    /// Opens a run for the request: the first action is to create the
    /// multipart session under the request's target key.
    pub fn start(request: ZipFileS3) -> (r: (RemotePipeline, StoreAction))
        requires
            request.files@.len() <= 0xffff_fffe,
        ensures
            r.0.wf(),
            r.0.phase is AwaitSession,
            r.0.target_key@ == request.key_zip@,
            r.0.objects == request.files,
            r.0.outcomes@ =~= Seq::<Option<Seq<u8>>>::empty(),
            (r.1 matches StoreAction::CreateSession { key } && key@ == request.key_zip@),
    {
        let ZipFileS3 { key_zip, files } = request;
        let action_key = key_zip.clone();
        let p = RemotePipeline {
            target_key: key_zip,
            objects: files,
            attempted: 0,
            queue: ItemQueue::new(),
            upload_id: None,
            parts: Vec::new(),
            phase: Phase::AwaitSession,
            outcomes: Ghost(Seq::empty()),
            uploaded: Ghost(Seq::empty()),
            pending: Ghost(None),
            completes: Ghost(0),
        };
        proof {
            assert(p.uploaded@ =~= fragment_seq(p.succ()));
        }
        (p, StoreAction::CreateSession { key: action_key })
    }

    /// What one step does: the new state and the action returned, for each
    /// event the waiting phase accepts.
    pub open spec fn step_ok(pre: RemotePipeline, ev: StoreEvent, post: RemotePipeline, a: StoreAction) -> bool {
        match ev {
            StoreEvent::SessionCreated(id) => {
                &&& post.upload_id == Some(id)
                &&& post.attempted == 0
                &&& post.outcomes@ == pre.outcomes@
                &&& post.parts@ == pre.parts@
                &&& post.uploaded@ == pre.uploaded@
                &&& if pre.objects@.len() > 0 {
                    &&& post.phase is AwaitDownload
                    &&& post.completes@ == 0
                    &&& (a matches StoreAction::Download { key } && key@ == pre.objects@[0].key@)
                } else {
                    &&& post.phase is AwaitComplete
                    &&& post.completes@ == 1
                    &&& Self::completion_issued(pre, post, a)
                }
            },
            StoreEvent::SessionCreateFailed => {
                &&& post.phase == Phase::Failed(PipelineError::SessionError)
                &&& post.completes@ == 0
                &&& a == StoreAction::Abort(PipelineError::SessionError)
            },
            StoreEvent::Downloaded(payload) => {
                &&& post.attempted == pre.attempted + 1
                &&& post.outcomes@ == pre.outcomes@.push(Some(payload@))
                &&& post.parts@ == pre.parts@
                &&& post.uploaded@ == pre.uploaded@
                &&& post.upload_id == pre.upload_id
                &&& {
                    ||| {
                        &&& post.phase is AwaitUpload
                        &&& post.completes@ == 0
                        &&& post.pending@ == Some(
                            (pre.objects@[pre.attempted as int].name@, payload@),
                        )
                        &&& (a matches StoreAction::UploadPart { key, upload_id, part_number, body }
                            && key@ == pre.target_key@
                            && upload_id@ == pre.upload_id->0@
                            && part_number == pre.parts@.len() + 1
                            && body@ == fragment_bytes(
                                pre.objects@[pre.attempted as int].name@,
                                payload@,
                            ))
                    }
                    ||| {
                        // only an entry the encoder may refuse can end here
                        &&& !encodable_entry(pre.objects@[pre.attempted as int].name@, payload@)
                        &&& post.phase == Phase::Failed(PipelineError::ArchiveError)
                        &&& post.completes@ == 0
                        &&& a == StoreAction::Abort(PipelineError::ArchiveError)
                    }
                }
            },
            StoreEvent::DownloadFailed => {
                &&& post.attempted == pre.attempted + 1
                &&& post.outcomes@ == pre.outcomes@.push(None)
                &&& post.parts@ == pre.parts@
                &&& post.uploaded@ == pre.uploaded@
                &&& post.upload_id == pre.upload_id
                &&& Self::item_resolved(pre, post, a, pre.attempted + 1)
            },
            StoreEvent::PartUploaded(e_tag) => {
                &&& post.attempted == pre.attempted
                &&& post.outcomes@ == pre.outcomes@
                &&& post.upload_id == pre.upload_id
                &&& post.parts@ == pre.parts@.push(
                    (PartDescriptor { part_number: (pre.parts@.len() + 1) as u32, e_tag }),
                )
                &&& post.uploaded@ == pre.uploaded@.push(
                    fragment_bytes((pre.pending@->0).0, (pre.pending@->0).1),
                )
                &&& Self::item_resolved(pre, post, a, pre.attempted as int)
            },
            StoreEvent::PartUploadFailed => {
                &&& post.phase == Phase::Failed(PipelineError::PartUploadError)
                &&& post.completes@ == 0
                &&& a == StoreAction::Abort(PipelineError::PartUploadError)
            },
            StoreEvent::Completed => {
                &&& post.phase is Finished
                &&& post.attempted == pre.attempted
                &&& post.outcomes@ == pre.outcomes@
                &&& post.parts@ == pre.parts@
                &&& post.uploaded@ == pre.uploaded@
                &&& post.completes@ == pre.completes@
                &&& a is Finish
            },
            StoreEvent::CompleteFailed => {
                &&& post.phase == Phase::Failed(PipelineError::SessionError)
                &&& post.completes@ == pre.completes@
                &&& a == StoreAction::Abort(PipelineError::SessionError)
            },
        }
    }

    /// The completion call goes out: at most once per run, and only once
    /// every download has resolved and the queue is closed.
    pub open spec fn completion_issued(pre: RemotePipeline, post: RemotePipeline, a: StoreAction) -> bool {
        &&& post.queue.closed
        &&& (a matches StoreAction::Complete { key, upload_id }
            && key@ == pre.target_key@
            && upload_id@ == post.upload_id->0@)
    }

    /// After object number `resolved` resolved (uploaded or skipped), either
    /// the next download goes out or, past the last object, the queue closes
    /// and the single completion call goes out.
    pub open spec fn item_resolved(pre: RemotePipeline, post: RemotePipeline, a: StoreAction, resolved: int) -> bool {
        &&& post.pending@ is None
        &&& if resolved < pre.objects@.len() {
            &&& post.phase is AwaitDownload
            &&& post.completes@ == 0
            &&& (a matches StoreAction::Download { key } && key@ == pre.objects@[resolved].key@)
        } else {
            &&& post.phase is AwaitComplete
            &&& post.completes@ == 1
            &&& Self::completion_issued(pre, post, a)
        }
    }

    /// Feeds the store's answer to the pipeline and returns the next action.
    pub fn step(&mut self, ev: StoreEvent) -> (a: StoreAction)
        requires
            old(self).wf(),
            old(self).accepts(ev),
        ensures
            final(self).wf(),
            final(self).objects == old(self).objects,
            final(self).target_key == old(self).target_key,
            Self::step_ok(*old(self), ev, *final(self), a),
    {
        match ev {
            StoreEvent::SessionCreated(id) => {
                self.upload_id = Some(id);
                if self.objects.len() > 0 {
                    self.phase = Phase::AwaitDownload;
                    let key = self.objects[0].key.clone();
                    StoreAction::Download { key }
                } else {
                    proof {
                        assert(self.uploaded@ =~= fragment_seq(self.succ()));
                    }
                    self.issue_completion()
                }
            },
            StoreEvent::SessionCreateFailed => {
                self.phase = Phase::Failed(PipelineError::SessionError);
                StoreAction::Abort(PipelineError::SessionError)
            },
            StoreEvent::Downloaded(payload) => {
                let ghost pre = *self;
                let name = self.objects[self.attempted].name.clone();
                let item = DownloadedItem { name, payload };
                self.queue.push(item);
                let popped = self.queue.pop();
                self.outcomes = Ghost(self.outcomes@.push(Some(popped->0.payload@)));
                self.attempted = self.attempted + 1;
                match popped {
                    Some(it) => {
                        proof {
                            assert(self.outcomes@.drop_last() =~= pre.outcomes@);
                            assert(self.succ() == pre.succ().push((it.name@, it.payload@)));
                            assert(self.succ().drop_last() =~= pre.succ());
                            lemma_successful_items_len(pre.names(), pre.outcomes@);
                        }
                        match build_entry_fragment(&it) {
                            Some(body) => {
                                self.pending = Ghost(Some((it.name@, it.payload@)));
                                self.phase = Phase::AwaitUpload;
                                let key = self.target_key.clone();
                                let upload_id = self.clone_upload_id();
                                let part_number = self.next_part_number();
                                StoreAction::UploadPart { key, upload_id, part_number, body }
                            },
                            None => {
                                self.phase = Phase::Failed(PipelineError::ArchiveError);
                                StoreAction::Abort(PipelineError::ArchiveError)
                            },
                        }
                    },
                    None => {
                        // The queue hands back exactly what was pushed.
                        proof {
                            assert(false);
                        }
                        StoreAction::Abort(PipelineError::ArchiveError)
                    },
                }
            },
            StoreEvent::DownloadFailed => {
                let ghost pre = *self;
                self.outcomes = Ghost(self.outcomes@.push(None));
                self.attempted = self.attempted + 1;
                proof {
                    assert(self.outcomes@.drop_last() =~= pre.outcomes@);
                    assert(self.succ() == pre.succ());
                }
                self.advance_or_complete()
            },
            StoreEvent::PartUploaded(e_tag) => {
                let ghost pre = *self;
                proof {
                    lemma_successful_items_len(pre.names(), pre.outcomes@);
                }
                let part_number = self.next_part_number();
                self.parts.push(PartDescriptor { part_number, e_tag });
                self.uploaded = Ghost(
                    self.uploaded@.push(fragment_bytes((self.pending@->0).0, (self.pending@->0).1)),
                );
                self.pending = Ghost(None);
                proof {
                    assert(fragment_seq(pre.succ().drop_last()).push(
                        fragment_bytes(pre.succ().last().0, pre.succ().last().1),
                    ) =~= fragment_seq(pre.succ()));
                }
                self.advance_or_complete()
            },
            StoreEvent::PartUploadFailed => {
                self.phase = Phase::Failed(PipelineError::PartUploadError);
                StoreAction::Abort(PipelineError::PartUploadError)
            },
            StoreEvent::Completed => {
                self.phase = Phase::Finished;
                StoreAction::Finish
            },
            StoreEvent::CompleteFailed => {
                self.phase = Phase::Failed(PipelineError::SessionError);
                StoreAction::Abort(PipelineError::SessionError)
            },
        }
    }

    /// The number the next uploaded part will carry: one past the parts
    /// recorded so far.
    fn next_part_number(&self) -> (n: u32)
        requires
            self.parts@.len() <= 0xffff_fffd,
        ensures
            n == self.parts@.len() + 1,
    {
        (self.parts.len() + 1) as u32
    }

    /// A copy of the session's upload id.
    fn clone_upload_id(&self) -> (id: String)
        requires
            self.upload_id is Some,
        ensures
            id@ == self.upload_id->0@,
    {
        match &self.upload_id {
            Some(id) => id.clone(),
            None => vstd::pervasive::unreached(),
        }
    }

    /// After a resolved object: issue the next download, or close the queue
    /// and complete.
    fn advance_or_complete(&mut self) -> (a: StoreAction)
        requires
            ({
                // mid-step state: like AwaitDownload but with `attempted`
                // already counting the object that just resolved
                &&& old(self).objects@.len() <= 0xffff_fffe
                &&& old(self).attempted <= old(self).objects@.len()
                &&& old(self).outcomes@.len() == old(self).attempted
                &&& old(self).parts@.len() == old(self).uploaded@.len()
                &&& (forall|i: int|
                    0 <= i < old(self).parts@.len() ==> (#[trigger] old(
                        self,
                    ).parts@[i].part_number) == i + 1)
                &&& old(self).queue.slot is None
                &&& !old(self).queue.closed
                &&& old(self).completes@ == 0
                &&& old(self).pending@ is None
                &&& old(self).upload_id is Some
                &&& old(self).uploaded@ == fragment_seq(old(self).succ())
            }),
        ensures
            final(self).wf(),
            final(self).objects == old(self).objects,
            final(self).target_key == old(self).target_key,
            final(self).attempted == old(self).attempted,
            final(self).outcomes@ == old(self).outcomes@,
            final(self).parts@ == old(self).parts@,
            final(self).uploaded@ == old(self).uploaded@,
            final(self).upload_id == old(self).upload_id,
            Self::item_resolved(*old(self), *final(self), a, old(self).attempted as int),
    {
        if self.attempted < self.objects.len() {
            self.phase = Phase::AwaitDownload;
            let key = self.objects[self.attempted].key.clone();
            StoreAction::Download { key }
        } else {
            self.issue_completion()
        }
    }

    /// Closes the queue and issues the run's one completion call.
    fn issue_completion(&mut self) -> (a: StoreAction)
        requires
            old(self).attempted == old(self).objects@.len(),
            old(self).outcomes@.len() == old(self).attempted,
            old(self).objects@.len() <= 0xffff_fffe,
            old(self).parts@.len() == old(self).uploaded@.len(),
            (forall|i: int|
                0 <= i < old(self).parts@.len() ==> (#[trigger] old(self).parts@[i].part_number)
                    == i + 1),
            old(self).queue.slot is None,
            old(self).completes@ == 0,
            old(self).pending@ is None,
            old(self).upload_id is Some,
            old(self).uploaded@ == fragment_seq(old(self).succ()),
        ensures
            final(self).wf(),
            final(self).phase is AwaitComplete,
            final(self).completes@ == 1,
            final(self).objects == old(self).objects,
            final(self).target_key == old(self).target_key,
            final(self).attempted == old(self).attempted,
            final(self).outcomes@ == old(self).outcomes@,
            final(self).parts@ == old(self).parts@,
            final(self).uploaded@ == old(self).uploaded@,
            final(self).upload_id == old(self).upload_id,
            Self::completion_issued(*old(self), *final(self), a),
    {
        self.queue.close();
        self.phase = Phase::AwaitComplete;
        self.completes = Ghost(self.completes@ + 1);
        let key = self.target_key.clone();
        let upload_id = self.clone_upload_id();
        StoreAction::Complete { key, upload_id }
    }
}

/// Law: when every download succeeds, the successful items are exactly one
/// per input reference, carrying its entry name and payload, in input order.
pub proof fn lemma_all_downloads_succeed(names: Seq<Seq<char>>, outcomes: Seq<Option<Seq<u8>>>)
    requires
        forall|i: int| 0 <= i < outcomes.len() ==> (#[trigger] outcomes[i]) is Some,
    ensures
        successful_items(names, outcomes).len() == outcomes.len(),
        forall|i: int|
            0 <= i < outcomes.len() ==> #[trigger] successful_items(names, outcomes)[i] == (
            names[i],
            outcomes[i]->0,
            ),
    decreases outcomes.len(),
{
    if outcomes.len() > 0 {
        lemma_all_downloads_succeed(names, outcomes.drop_last());
    }
}

/// Law: when download `k` fails and every other succeeds, the successful
/// items are all references but `k`, in input order and without reordering.
pub proof fn lemma_one_download_fails(names: Seq<Seq<char>>, outcomes: Seq<Option<Seq<u8>>>, k: int)
    requires
        0 <= k < outcomes.len(),
        outcomes[k] is None,
        forall|i: int| 0 <= i < outcomes.len() && i != k ==> (#[trigger] outcomes[i]) is Some,
    ensures
        successful_items(names, outcomes).len() == outcomes.len() - 1,
        forall|i: int|
            0 <= i < k ==> #[trigger] successful_items(names, outcomes)[i] == (
            names[i],
            outcomes[i]->0,
            ),
        forall|i: int|
            k <= i < outcomes.len() - 1 ==> #[trigger] successful_items(names, outcomes)[i] == (
            names[i + 1],
            outcomes[i + 1]->0,
            ),
    decreases outcomes.len(),
{
    if k == outcomes.len() - 1 {
        lemma_all_downloads_succeed(names, outcomes.drop_last());
    } else {
        lemma_one_download_fails(names, outcomes.drop_last(), k);
    }
}

/// Law (complete archive): a finished run in which every download succeeded
/// uploaded exactly one part per input reference, whose body is the
/// single-entry archive of that reference's name and payload, in input order.
pub proof fn lemma_run_complete_archive(p: RemotePipeline)
    requires
        p.wf(),
        p.phase is Finished,
        forall|i: int| 0 <= i < p.outcomes@.len() ==> (#[trigger] p.outcomes@[i]) is Some,
    ensures
        p.uploaded@.len() == p.objects@.len(),
        p.parts@.len() == p.objects@.len(),
        forall|i: int|
            0 <= i < p.objects@.len() ==> #[trigger] p.uploaded@[i] == fragment_bytes(
                p.objects@[i].name@,
                p.outcomes@[i]->0,
            ),
{
    lemma_all_downloads_succeed(p.names(), p.outcomes@);
}

/// Law (one missing download): a finished run in which exactly download `k`
/// failed uploaded all entries but `k`, in input order; the run still
/// succeeded.
pub proof fn lemma_run_one_download_missing(p: RemotePipeline, k: int)
    requires
        p.wf(),
        p.phase is Finished,
        0 <= k < p.outcomes@.len(),
        p.outcomes@[k] is None,
        forall|i: int| 0 <= i < p.outcomes@.len() && i != k ==> (#[trigger] p.outcomes@[i]) is Some,
    ensures
        p.uploaded@.len() == p.objects@.len() - 1,
        forall|i: int|
            0 <= i < k ==> #[trigger] p.uploaded@[i] == fragment_bytes(
                p.objects@[i].name@,
                p.outcomes@[i]->0,
            ),
        forall|i: int|
            k <= i < p.objects@.len() - 1 ==> #[trigger] p.uploaded@[i] == fragment_bytes(
                p.objects@[i + 1].name@,
                p.outcomes@[i + 1]->0,
            ),
{
    lemma_one_download_fails(p.names(), p.outcomes@, k);
}

/// Law (failures absorbed): the step that records a failed download never
/// fails the run nor issues an abort; the pipeline goes on to the next
/// download or to completion.
pub proof fn lemma_download_failure_absorbed(
    pre: RemotePipeline,
    post: RemotePipeline,
    a: StoreAction,
)
    requires
        pre.wf(),
        pre.accepts(StoreEvent::DownloadFailed),
        RemotePipeline::step_ok(pre, StoreEvent::DownloadFailed, post, a),
    ensures
        !(post.phase is Failed),
        !(a is Abort),
{
}

/// Law (contiguous part numbers): in every reachable pipeline state the
/// recorded part numbers form the sequence 1..n, with no gaps or repeats.
pub proof fn lemma_contiguous_part_numbers(p: RemotePipeline)
    requires
        p.wf(),
    ensures
        forall|i: int| 0 <= i < p.parts@.len() ==> (#[trigger] p.parts@[i].part_number) == i + 1,
{
}

/// Law (single completion): completion is issued at most once per run, and
/// only after every download resolved and the queue was closed and drained.
pub proof fn lemma_single_completion(p: RemotePipeline)
    requires
        p.wf(),
    ensures
        p.completes@ <= 1,
        p.completes@ == 1 ==> p.attempted == p.objects@.len() && p.queue.closed
            && p.queue.undelivered() == 0,
{
}

/// Law (idempotence): two finished runs over the same entry names, whose
/// downloads resolved the same way, uploaded identical part bodies.
pub proof fn lemma_rerun_identical(p1: RemotePipeline, p2: RemotePipeline)
    requires
        p1.wf(),
        p2.wf(),
        p1.phase is Finished,
        p2.phase is Finished,
        p1.names() == p2.names(),
        p1.outcomes@ == p2.outcomes@,
    ensures
        p1.uploaded@ == p2.uploaded@,
        p1.parts@.len() == p2.parts@.len(),
{
}


} // verus!
