//! The fallback-mode delivery pipeline: no target key, no multipart
//! session. Successful downloads are collected in order and written as one
//! multi-entry archive to a single local file; the file write itself is
//! performed by the driver outside this crate.

use vstd::prelude::*;

use crate::archive::archive_bytes;
use crate::archive::build_archive;
use crate::archive::encodable_items;
use crate::archive::item_views;
use crate::models::DownloadedItem;
use crate::models::FileS3;
use crate::models::PipelineError;
use crate::pipeline::entry_names;
use crate::pipeline::lemma_all_downloads_succeed;
use crate::pipeline::successful_items;
use crate::queue::ItemQueue;

verus! {

/// Where the fallback pipeline stands between two events.
pub enum LocalPhase {
    /// The download of the next object is in flight.
    AwaitDownload,
    /// The archive image is built; the file write is in flight.
    AwaitWrite,
    /// The archive file was written.
    Finished,
    /// The run failed fatally.
    Failed(PipelineError),
}

/// The answer to the action last performed.
pub enum LocalEvent {
    /// The pending download succeeded; carries the object's bytes.
    Downloaded(Vec<u8>),
    DownloadFailed,
    WriteOk,
    WriteFailed,
}

/// The next piece of outside work the driver must perform, or the run's
/// outcome.
pub enum LocalAction {
    Download { key: String },
    /// Write this archive image to the fixed local path.
    WriteArchive { bytes: Vec<u8> },
    /// The run is over and succeeded.
    Finish,
    /// The run is over and failed.
    Abort(PipelineError),
}

/// The fallback-mode pipeline. `items` collects the successful downloads in
/// input order; the ghost `outcomes` record how each download resolved.
pub struct LocalPipeline {
    pub objects: Vec<FileS3>,
    /// How many downloads have resolved, in success or failure.
    pub attempted: usize,
    pub queue: ItemQueue,
    pub items: Vec<DownloadedItem>,
    pub phase: LocalPhase,
    pub outcomes: Ghost<Seq<Option<Seq<u8>>>>,
}

impl LocalPipeline {
    /// The entries the archive will hold: one per successful download, in
    /// input order.
    pub open spec fn succ(self) -> Seq<(Seq<char>, Seq<u8>)> {
        successful_items(entry_names(self.objects@), self.outcomes@)
    }

    /// The pipeline's invariant, established by `start` and preserved by
    /// `step`.
    pub open spec fn wf(self) -> bool {
        &&& self.objects@.len() <= usize::MAX
        &&& self.attempted <= self.objects@.len()
        &&& self.outcomes@.len() == self.attempted
        &&& self.queue.slot is None
        &&& item_views(self.items@) == self.succ()
        &&& match self.phase {
            LocalPhase::AwaitDownload => self.attempted < self.objects@.len()
                && !self.queue.closed,
            LocalPhase::AwaitWrite => self.attempted == self.objects@.len() && self.queue.closed,
            LocalPhase::Finished => self.attempted == self.objects@.len() && self.queue.closed,
            LocalPhase::Failed(_) => true,
        }
    }

    /// Which events can answer the action the pipeline is waiting on.
    pub open spec fn accepts(self, ev: LocalEvent) -> bool {
        match self.phase {
            LocalPhase::AwaitDownload => ev is Downloaded || ev is DownloadFailed,
            LocalPhase::AwaitWrite => ev is WriteOk || ev is WriteFailed,
            LocalPhase::Finished => false,
            LocalPhase::Failed(_) => false,
        }
    }

    /// After object number `resolved` resolved (collected or skipped):
    /// either the next download goes out or, past the last object, the queue
    /// closes and the finished archive image goes out to be written.
    pub open spec fn fetch_resolved(pre: LocalPipeline, post: LocalPipeline, a: LocalAction, resolved: int) -> bool {
        if resolved < pre.objects@.len() {
            &&& post.phase is AwaitDownload
            &&& (a matches LocalAction::Download { key } && key@ == pre.objects@[resolved].key@)
        } else {
            ||| {
                &&& post.phase is AwaitWrite
                &&& (a matches LocalAction::WriteArchive { bytes } && bytes@ == archive_bytes(
                    item_views(post.items@),
                ))
            }
            ||| {
                // only entries the encoder may refuse can end here
                &&& !encodable_items(item_views(post.items@))
                &&& post.phase == LocalPhase::Failed(PipelineError::ArchiveError)
                &&& a == LocalAction::Abort(PipelineError::ArchiveError)
            }
        }
    }

    /// What one step does: the new state and the action returned, for each
    /// event the waiting phase accepts.
    pub open spec fn step_ok(pre: LocalPipeline, ev: LocalEvent, post: LocalPipeline, a: LocalAction) -> bool {
        match ev {
            LocalEvent::Downloaded(payload) => {
                &&& post.attempted == pre.attempted + 1
                &&& post.outcomes@ == pre.outcomes@.push(Some(payload@))
                &&& item_views(post.items@) == item_views(pre.items@).push(
                    (pre.objects@[pre.attempted as int].name@, payload@),
                )
                &&& Self::fetch_resolved(pre, post, a, pre.attempted + 1)
            },
            LocalEvent::DownloadFailed => {
                &&& post.attempted == pre.attempted + 1
                &&& post.outcomes@ == pre.outcomes@.push(None)
                &&& post.items@ == pre.items@
                &&& Self::fetch_resolved(pre, post, a, pre.attempted + 1)
            },
            LocalEvent::WriteOk => {
                &&& post.phase is Finished
                &&& post.items@ == pre.items@
                &&& post.outcomes@ == pre.outcomes@
                &&& post.attempted == pre.attempted
                &&& a is Finish
            },
            LocalEvent::WriteFailed => {
                &&& post.phase == LocalPhase::Failed(PipelineError::LocalWriteError)
                &&& a == LocalAction::Abort(PipelineError::LocalWriteError)
            },
        }
    }

    /// Opens a fallback run: the first action is the first download, or at
    /// once the write of the empty archive.
    pub fn start(files: Vec<FileS3>) -> (r: (LocalPipeline, LocalAction))
        ensures
            r.0.wf(),
            r.0.objects == files,
            r.0.outcomes@ =~= Seq::<Option<Seq<u8>>>::empty(),
            files@.len() > 0 ==> r.0.phase is AwaitDownload && (
            r.1 matches LocalAction::Download { key } && key@ == files@[0].key@),
            files@.len() == 0 ==> Self::fetch_resolved(r.0, r.0, r.1, 0),
    {
        let mut p = LocalPipeline {
            objects: files,
            attempted: 0,
            queue: ItemQueue::new(),
            items: Vec::new(),
            phase: LocalPhase::AwaitDownload,
            outcomes: Ghost(Seq::empty()),
        };
        proof {
            assert(item_views(p.items@) =~= p.succ());
        }
        if p.objects.len() > 0 {
            let key = p.objects[0].key.clone();
            (p, LocalAction::Download { key })
        } else {
            let a = p.finish_fetching();
            (p, a)
        }
    }

    /// Feeds the last action's answer to the pipeline and returns the next
    /// action.
    pub fn step(&mut self, ev: LocalEvent) -> (a: LocalAction)
        requires
            old(self).wf(),
            old(self).accepts(ev),
        ensures
            final(self).wf(),
            final(self).objects == old(self).objects,
            Self::step_ok(*old(self), ev, *final(self), a),
    {
        match ev {
            LocalEvent::Downloaded(payload) => {
                let ghost pre = *self;
                let name = self.objects[self.attempted].name.clone();
                let item = DownloadedItem { name, payload };
                self.queue.push(item);
                let popped = self.queue.pop();
                self.outcomes = Ghost(self.outcomes@.push(Some(popped->0.payload@)));
                self.attempted = self.attempted + 1;
                match popped {
                    Some(it) => {
                        proof {
                            assert(self.outcomes@.drop_last() =~= pre.outcomes@);
                            assert(self.succ() == pre.succ().push((it.name@, it.payload@)));
                            assert(item_views(pre.items@.push(it)) =~= item_views(pre.items@).push(
                                (it.name@, it.payload@),
                            ));
                        }
                        self.items.push(it);
                        self.advance_fetch()
                    },
                    None => {
                        // The queue hands back exactly what was pushed.
                        proof {
                            assert(false);
                        }
                        LocalAction::Abort(PipelineError::ArchiveError)
                    },
                }
            },
            LocalEvent::DownloadFailed => {
                let ghost pre = *self;
                self.outcomes = Ghost(self.outcomes@.push(None));
                self.attempted = self.attempted + 1;
                proof {
                    assert(self.outcomes@.drop_last() =~= pre.outcomes@);
                    assert(self.succ() == pre.succ());
                }
                self.advance_fetch()
            },
            LocalEvent::WriteOk => {
                self.phase = LocalPhase::Finished;
                LocalAction::Finish
            },
            LocalEvent::WriteFailed => {
                self.phase = LocalPhase::Failed(PipelineError::LocalWriteError);
                LocalAction::Abort(PipelineError::LocalWriteError)
            },
        }
    }

    /// After a resolved download: issue the next one, or close the queue and
    /// hand out the archive image.
    fn advance_fetch(&mut self) -> (a: LocalAction)
        requires
            old(self).attempted <= old(self).objects@.len(),
            old(self).outcomes@.len() == old(self).attempted,
            old(self).queue.slot is None,
            !old(self).queue.closed,
            item_views(old(self).items@) == old(self).succ(),
        ensures
            final(self).wf(),
            final(self).objects == old(self).objects,
            final(self).attempted == old(self).attempted,
            final(self).outcomes@ == old(self).outcomes@,
            final(self).items@ == old(self).items@,
            Self::fetch_resolved(*old(self), *final(self), a, old(self).attempted as int),
    {
        if self.attempted < self.objects.len() {
            self.phase = LocalPhase::AwaitDownload;
            let key = self.objects[self.attempted].key.clone();
            LocalAction::Download { key }
        } else {
            self.finish_fetching()
        }
    }

    /// Closes the queue and builds the archive image to be written.
    fn finish_fetching(&mut self) -> (a: LocalAction)
        requires
            old(self).attempted == old(self).objects@.len(),
            old(self).outcomes@.len() == old(self).attempted,
            old(self).queue.slot is None,
            item_views(old(self).items@) == old(self).succ(),
        ensures
            final(self).wf(),
            final(self).objects == old(self).objects,
            final(self).attempted == old(self).attempted,
            final(self).outcomes@ == old(self).outcomes@,
            final(self).items@ == old(self).items@,
            Self::fetch_resolved(*old(self), *final(self), a, old(self).attempted as int),
    {
        self.queue.close();
        match build_archive(&self.items) {
            Some(bytes) => {
                self.phase = LocalPhase::AwaitWrite;
                LocalAction::WriteArchive { bytes }
            },
            None => {
                self.phase = LocalPhase::Failed(PipelineError::ArchiveError);
                LocalAction::Abort(PipelineError::ArchiveError)
            },
        }
    }
}

/// Law (complete local archive): a fallback run whose downloads all
/// succeeded collected exactly one entry per input reference, named by its
/// entry name, in input order.
pub proof fn lemma_local_complete_entries(p: LocalPipeline)
    requires
        p.wf(),
        p.phase is AwaitWrite || p.phase is Finished,
        forall|i: int| 0 <= i < p.outcomes@.len() ==> (#[trigger] p.outcomes@[i]) is Some,
    ensures
        p.items@.len() == p.objects@.len(),
        forall|i: int|
            0 <= i < p.objects@.len() ==> #[trigger] item_views(p.items@)[i] == (
            p.objects@[i].name@,
            p.outcomes@[i]->0,
            ),
{
    lemma_all_downloads_succeed(entry_names(p.objects@), p.outcomes@);
}

} // verus!
