use vstd::prelude::*;
use crate::text::views;

verus! {

/// An event of a batch run, in the order a presentation layer receives them.
pub enum ImageMsg {
    /// An image was converted and written.
    Done { filename: String },
    /// An image failed; the batch goes on.
    Error { text: String },
    /// The batch is over; always the last event, sent once.
    Finished,
    /// Work on image `current` (counted from 1) of `total` begins.
    Progress { current: usize, total: usize, filename: String },
}

/// The value of an event.
pub enum MsgView {
    Done { filename: Seq<char> },
    Error { text: Seq<char> },
    Finished,
    Progress { current: usize, total: usize, filename: Seq<char> },
}

impl View for ImageMsg {
    type V = MsgView;

    open spec fn view(&self) -> MsgView {
        match self {
            ImageMsg::Done { filename } => MsgView::Done { filename: filename@ },
            ImageMsg::Error { text } => MsgView::Error { text: text@ },
            ImageMsg::Finished => MsgView::Finished,
            ImageMsg::Progress { current, total, filename } => MsgView::Progress {
                current: *current,
                total: *total,
                filename: filename@,
            },
        }
    }
}

/// What became of one image: converted, or failed with a message.
pub type Outcome = Result<(), Seq<char>>;

/// What a call of the work function returned, as an outcome.
pub open spec fn outcome_of(r: Result<(), String>) -> Outcome {
    match r {
        Ok(()) => Ok(()),
        Err(text) => Err(text@),
    }
}

/// The event that closes the work on an image.
pub open spec fn outcome_msg(name: Seq<char>, outcome: Outcome) -> MsgView {
    match outcome {
        Ok(()) => MsgView::Done { filename: name },
        Err(text) => MsgView::Error { text },
    }
}

/// The events of the first `k` images: for each, its progress event, then
/// its outcome.
pub open spec fn image_events(names: Seq<Seq<char>>, outcomes: Seq<Outcome>, k: nat) -> Seq<
    MsgView,
>
    decreases k,
{
    if k == 0 {
        Seq::empty()
    } else {
        let i = k - 1;
        image_events(names, outcomes, i as nat).push(
            MsgView::Progress {
                current: (i + 1) as usize,
                total: names.len() as usize,
                filename: names[i],
            },
        ).push(outcome_msg(names[i], outcomes[i]))
    }
}

/// The events of a whole batch: those of every image, then `Finished`.
pub open spec fn batch_events(names: Seq<Seq<char>>, outcomes: Seq<Outcome>) -> Seq<MsgView> {
    image_events(names, outcomes, names.len()).push(MsgView::Finished)
}

#[verifier::external_type_specification]
#[verifier::external_body]
#[verifier::reject_recursive_types(T)]
pub struct ExSender<T>(std::sync::mpsc::Sender<T>);

/// Relies on std::sync::mpsc::Sender::send: it hands the event to the
/// channel's receiver, or gives it back when the receiver is gone.
#[verifier::external_body]
fn send_event(sender: &std::sync::mpsc::Sender<ImageMsg>, msg: ImageMsg) {
    let _ = sender.send(msg);
}

/// Where a batch sends its events: the channel to the presentation layer,
/// and the record of every event sent through it, in order.
pub struct EventSink {
    sender: std::sync::mpsc::Sender<ImageMsg>,
    sent: Ghost<Seq<MsgView>>,
}

impl View for EventSink {
    type V = Seq<MsgView>;

    /// Every event sent through the sink, in order.
    closed spec fn view(&self) -> Seq<MsgView> {
        self.sent@
    }
}

impl EventSink {
    /// A sink that has sent nothing yet.
    pub fn new(sender: std::sync::mpsc::Sender<ImageMsg>) -> (r: EventSink)
        ensures
            r@ == Seq::<MsgView>::empty(),
    {
        EventSink { sender, sent: Ghost(Seq::empty()) }
    }

    /// Sends one event; the record grows by exactly that event.
    pub fn send(&mut self, msg: ImageMsg)
        ensures
            final(self)@ == old(self)@.push(msg@),
    {
        let ghost v = msg@;
        send_event(&self.sender, msg);
        self.sent = Ghost(self.sent@.push(v));
    }
}

/// Runs a batch: for each image `i`, sends its progress event, runs
/// `work(i)`, and sends `Done` or the error that `work` returned; after the
/// last image, sends `Finished`. A failed image never stops the batch.
/// Returns what each image came to.
pub fn process_batch<W>(names: &Vec<String>, work: W, sink: &mut EventSink) -> (outcomes: Ghost<
    Seq<Outcome>,
>)
    where
        W: Fn(usize) -> Result<(), String>,
    requires
        forall|i: usize| i < names.len() ==> work.requires((i,)),
    ensures
        outcomes@.len() == names.len(),
        forall|j: int|
            0 <= j < names.len() ==> exists|r: Result<(), String>|
                work.ensures((j as usize,), r) && outcome_of(r) == #[trigger] outcomes@[j],
        final(sink)@ == old(sink)@ + batch_events(views(names@), outcomes@),
{
    let total = names.len();
    let ghost mut outcomes: Seq<Outcome> = Seq::empty();
    let ghost nv = views(names@);
    let ghost base = sink@;
    let mut i: usize = 0;
    assert(base + image_events(nv, outcomes, 0) =~= base);
    while i < total
        invariant
            total == names.len(),
            nv == views(names@),
            nv.len() == total,
            0 <= i <= total,
            outcomes.len() == i,
            forall|j: int|
                0 <= j < i ==> exists|r: Result<(), String>|
                    work.ensures((j as usize,), r) && outcome_of(r) == #[trigger] outcomes[j],
            base == old(sink)@,
            sink@ == base + image_events(nv, outcomes, i as nat),
            forall|j: usize| j < names.len() ==> work.requires((j,)),
        decreases total - i,
    {
        let ghost before = outcomes;
        let progress = ImageMsg::Progress {
            current: i + 1,
            total,
            filename: names[i].clone(),
        };
        let ghost pv = progress@;
        sink.send(progress);
        let res = work(i);
        proof {
            assert(work.ensures((i,), res) && outcome_of(res) == outcome_of(res));
        }
        let ghost res_outcome = outcome_of(res);
        let done = match res {
            Ok(()) => {
                proof {
                    outcomes = outcomes.push(Ok(()));
                }
                ImageMsg::Done { filename: names[i].clone() }
            },
            Err(text) => {
                proof {
                    outcomes = outcomes.push(Err(text@));
                }
                ImageMsg::Error { text }
            },
        };
        let ghost dv = done@;
        sink.send(done);
        proof {
            assert(outcomes.last() == res_outcome);
            assert forall|j: int| 0 <= j < i + 1 implies exists|r: Result<(), String>|
                work.ensures((j as usize,), r) && outcome_of(r) == #[trigger] outcomes[j] by {
                if j < i {
                    assert(outcomes[j] == before[j]);
                } else {
                    assert(work.ensures((j as usize,), res) && outcome_of(res) == outcomes[j]);
                }
            }
            assert(outcomes.subrange(0, i as int) =~= before);
            lemma_image_events_prefix(nv, before, outcomes, i as nat);
            assert(sink@ =~= base + image_events(nv, outcomes, (i + 1) as nat));
        }
        i = i + 1;
    }
    sink.send(ImageMsg::Finished);
    assert(sink@ =~= base + batch_events(nv, outcomes));
    Ghost(outcomes)
}

/// The events of the first `k` images depend only on the first `k` outcomes.
proof fn lemma_image_events_prefix(
    names: Seq<Seq<char>>,
    short: Seq<Outcome>,
    long: Seq<Outcome>,
    k: nat,
)
    requires
        k <= short.len(),
        k <= long.len(),
        forall|j: int| 0 <= j < k ==> short[j] == long[j],
    ensures
        image_events(names, short, k) == image_events(names, long, k),
    decreases k,
{
    if k > 0 {
        lemma_image_events_prefix(names, short, long, (k - 1) as nat);
    }
}

proof fn lemma_image_events_shape(names: Seq<Seq<char>>, outcomes: Seq<Outcome>, k: nat)
    requires
        k <= names.len(),
        k <= outcomes.len(),
    ensures
        image_events(names, outcomes, k).len() == 2 * k,
        forall|j: int|
            0 <= j < 2 * k ==> image_events(names, outcomes, k)[j] != MsgView::Finished,
        forall|i: int|
            0 <= i < k ==> image_events(names, outcomes, k)[2 * i] == (MsgView::Progress {
                current: (i + 1) as usize,
                total: names.len() as usize,
                filename: names[i],
            }),
        forall|i: int|
            0 <= i < k ==> image_events(names, outcomes, k)[2 * i + 1] == outcome_msg(
                names[i],
                outcomes[i],
            ),
    decreases k,
{
    if k > 0 {
        lemma_image_events_shape(names, outcomes, (k - 1) as nat);
        let prev = image_events(names, outcomes, (k - 1) as nat);
        let cur = image_events(names, outcomes, k);
        assert forall|i: int| 0 <= i < k implies cur[2 * i] == (MsgView::Progress {
            current: (i + 1) as usize,
            total: names.len() as usize,
            filename: names[i],
        }) by {
            if i < k - 1 {
                assert(cur[2 * i] == prev[2 * i]);
            }
        }
        assert forall|i: int| 0 <= i < k implies cur[2 * i + 1] == outcome_msg(
            names[i],
            outcomes[i],
        ) by {
            if i < k - 1 {
                assert(cur[2 * i + 1] == prev[2 * i + 1]);
            }
        }
        assert forall|j: int| 0 <= j < 2 * k implies cur[j] != MsgView::Finished by {
            if j < 2 * k - 2 {
                assert(cur[j] == prev[j]);
            }
        }
    }
}

/// The events of a batch of `n` images: progress and outcome for image 1,
/// then for image 2, and so on, each outcome `Done` or `Error` as the image
/// went; then `Finished`, once, last.
pub proof fn lemma_batch_event_order(names: Seq<Seq<char>>, outcomes: Seq<Outcome>)
    requires
        outcomes.len() == names.len(),
    ensures
        batch_events(names, outcomes).len() == 2 * names.len() + 1,
        batch_events(names, outcomes).last() == MsgView::Finished,
        forall|j: int|
            0 <= j < 2 * names.len() ==> batch_events(names, outcomes)[j] != MsgView::Finished,
        forall|i: int|
            0 <= i < names.len() ==> batch_events(names, outcomes)[2 * i] == (MsgView::Progress {
                current: (i + 1) as usize,
                total: names.len() as usize,
                filename: names[i],
            }),
        forall|i: int|
            0 <= i < names.len() ==> batch_events(names, outcomes)[2 * i + 1] == outcome_msg(
                names[i],
                outcomes[i],
            ),
{
    lemma_image_events_shape(names, outcomes, names.len());
    let ev = image_events(names, outcomes, names.len());
    assert forall|j: int| 0 <= j < 2 * names.len() implies batch_events(names, outcomes)[j]
        == ev[j] by {}
}

} // verus!
