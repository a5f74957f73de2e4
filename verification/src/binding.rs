//! The process-wide binding of the runtime-compilation library: it is loaded
//! at most once, and every caller is given the one outcome.
//!
//! The binding is a state machine. Opening the library is not done here: the
//! caller that is told to load opens it and reports what came of it.

use vstd::prelude::*;
use vstd::string::*;

verus! {

/// The logical name of the library that is bound.
pub const LIBRARY_NAME: &'static str = "nvrtc";

/// Why the library could not be bound.
#[derive(Clone, Debug, PartialEq, Eq)]
pub struct LoadFailure {
    /// The file name that was tried.
    pub filename: String,
    /// What the loader said.
    pub reason: String,
}

/// A load failure as plain values.
pub struct LoadFailureView {
    pub filename: Seq<char>,
    pub reason: Seq<char>,
}

impl View for LoadFailure {
    type V = LoadFailureView;

    open spec fn view(&self) -> LoadFailureView {
        LoadFailureView { filename: self.filename@, reason: self.reason@ }
    }
}

impl LoadFailureView {
    /// The text shown to the operator.
    pub open spec fn message(self) -> Seq<char> {
        "Unable to load `"@ + self.filename + "`: "@ + self.reason
    }
}

/// The state of the binding. `Ready` and `Failed` are final: nothing leads out
/// of them.
///
/// The handle type `H` stands for the loaded library together with the
/// function table of the release that the build selected. The release is
/// fixed where the type is written, so no state holds one, and no caller
/// has to ask for one.
#[derive(Clone, Debug, PartialEq, Eq)]
pub enum Binding<H> {
    /// No caller has asked for the handle yet.
    Uninitialized,
    /// One caller is loading the library of this file name.
    Initializing { filename: String },
    /// The library is bound.
    Ready { handle: H },
    /// The library could not be bound, and will not be tried again.
    Failed { failure: LoadFailure },
}

/// A binding as plain values.
pub enum BindingView<H> {
    Uninitialized,
    Initializing { filename: Seq<char> },
    Ready { handle: H },
    Failed { failure: LoadFailureView },
}

impl<H> View for Binding<H> {
    type V = BindingView<H>;

    open spec fn view(&self) -> BindingView<H> {
        match *self {
            Binding::Uninitialized => BindingView::Uninitialized,
            Binding::Initializing { filename } => BindingView::Initializing { filename: filename@ },
            Binding::Ready { handle } => BindingView::Ready { handle },
            Binding::Failed { failure } => BindingView::Failed { failure: failure@ },
        }
    }
}

/// What a caller that asks for the handle is told.
#[derive(Clone, Debug, PartialEq, Eq)]
pub enum Access {
    /// The caller is the one that loads: it opens the library of this file
    /// name and reports the outcome.
    Load { filename: String },
    /// Another caller is loading: wait until it has reported, then ask again.
    Wait,
    /// The library is bound, and the handle can be taken.
    Ready,
    /// The library could not be bound. This is fatal to the caller.
    Failed { failure: LoadFailure },
}

/// An answer as plain values.
pub enum AccessView {
    Load { filename: Seq<char> },
    Wait,
    Ready,
    Failed { failure: LoadFailureView },
}

impl View for Access {
    type V = AccessView;

    open spec fn view(&self) -> AccessView {
        match *self {
            Access::Load { filename } => AccessView::Load { filename: filename@ },
            Access::Wait => AccessView::Wait,
            Access::Ready => AccessView::Ready,
            Access::Failed { failure } => AccessView::Failed { failure: failure@ },
        }
    }
}

/// What happens to a binding: a caller asks for the handle, or the caller
/// that loads reports.
pub enum Event<H> {
    /// A caller asks for the handle; `filename` is the library's file name as
    /// that caller derived it.
    Request { filename: Seq<char> },
    /// The load has come to an end, with a handle or with the loader's words.
    Completed { outcome: Result<H, Seq<char>> },
}

impl<H> BindingView<H> {
    /// Whether the state is final.
    pub open spec fn is_terminal(self) -> bool {
        self is Ready || self is Failed
    }

    /// The state after a caller has asked for the handle. Only the first
    /// caller starts a load.
    pub open spec fn after_request(self, filename: Seq<char>) -> Self {
        match self {
            BindingView::Uninitialized => BindingView::Initializing { filename },
            state => state,
        }
    }

    /// What a caller that asks in this state is told.
    pub open spec fn reply(self, filename: Seq<char>) -> AccessView {
        match self {
            BindingView::Uninitialized => AccessView::Load { filename },
            BindingView::Initializing { .. } => AccessView::Wait,
            BindingView::Ready { .. } => AccessView::Ready,
            BindingView::Failed { failure } => AccessView::Failed { failure },
        }
    }

    /// The state after the load has been reported. A report counts only while
    /// a load is under way.
    pub open spec fn after_completion(self, outcome: Result<H, Seq<char>>) -> Self {
        match self {
            BindingView::Initializing { filename } => match outcome {
                Ok(handle) => BindingView::Ready { handle },
                Err(reason) => BindingView::Failed {
                    failure: LoadFailureView { filename, reason },
                },
            },
            state => state,
        }
    }

    /// The state after one event.
    pub open spec fn after(self, event: Event<H>) -> Self {
        match event {
            Event::Request { filename } => self.after_request(filename),
            Event::Completed { outcome } => self.after_completion(outcome),
        }
    }

    /// The state after a run of events.
    pub open spec fn after_all(self, events: Seq<Event<H>>) -> Self
        decreases events.len(),
    {
        if events.len() == 0 {
            self
        } else {
            self.after_all(events.drop_last()).after(events.last())
        }
    }

    /// How many callers were told to load during a run of events.
    pub open spec fn loads(self, events: Seq<Event<H>>) -> nat
        decreases events.len(),
    {
        if events.len() == 0 {
            0
        } else {
            let before = self.after_all(events.drop_last());
            let told = events.last() matches Event::Request { filename } && before.reply(
                filename,
            ) is Load;
            self.loads(events.drop_last()) + if told {
                1nat
            } else {
                0nat
            }
        }
    }
}

/// `name` between a prefix and a suffix.
pub open spec fn framed(prefix: Seq<char>, name: Seq<char>, suffix: Seq<char>) -> Seq<char> {
    prefix + name + suffix
}

/// Whether `filename` is `name` between some prefix and some suffix.
pub open spec fn is_library_filename(filename: Seq<char>, name: Seq<char>) -> bool {
    exists|prefix: Seq<char>, suffix: Seq<char>| filename == framed(prefix, name, suffix)
}

/// The only steps are these three: from the first state to a load under way,
/// and from a load under way to either final state. Every other event leaves
/// the state as it is.
pub proof fn lemma_steps<H>(state: BindingView<H>, event: Event<H>)
    ensures
        ({
            ||| state.after(event) == state
            ||| state is Uninitialized && state.after(event) is Initializing
            ||| state is Initializing && state.after(event).is_terminal()
        }),
{
}

/// A run of events after another is one run.
pub proof fn lemma_after_all_add<H>(
    state: BindingView<H>,
    first: Seq<Event<H>>,
    second: Seq<Event<H>>,
)
    ensures
        state.after_all(first + second) == state.after_all(first).after_all(second),
    decreases second.len(),
{
    if second.len() == 0 {
        assert(first + second =~= first);
    } else {
        lemma_after_all_add(state, first, second.drop_last());
        assert((first + second).drop_last() =~= first + second.drop_last());
    }
}

/// A final state stays as it is, whatever happens.
pub proof fn lemma_terminal_is_sticky<H>(state: BindingView<H>, events: Seq<Event<H>>)
    requires
        state.is_terminal(),
    ensures
        state.after_all(events) == state,
    decreases events.len(),
{
    if events.len() > 0 {
        lemma_terminal_is_sticky(state, events.drop_last());
    }
}

/// Once a run of events has left the first state, it does not come back to
/// it.
pub proof fn lemma_never_uninitialized_again<H>(state: BindingView<H>, events: Seq<Event<H>>)
    requires
        !(state is Uninitialized),
    ensures
        !(state.after_all(events) is Uninitialized),
        state.loads(events) == 0,
    decreases events.len(),
{
    if events.len() > 0 {
        lemma_never_uninitialized_again(state, events.drop_last());
    }
}

/// However many callers ask, and in whatever order the events come, no more
/// than one of them is told to load. One is told exactly when some caller has
/// asked, and none exactly when the binding is still as it began.
pub proof fn lemma_exactly_one_load<H>(events: Seq<Event<H>>)
    ensures
        BindingView::<H>::Uninitialized.loads(events) <= 1,
        BindingView::<H>::Uninitialized.loads(events) == 1 <==> exists|i: int|
            0 <= i < events.len() && #[trigger] events[i] is Request,
        BindingView::<H>::Uninitialized.loads(events) == 0 <==> BindingView::<
            H,
        >::Uninitialized.after_all(events) is Uninitialized,
    decreases events.len(),
{
    let start = BindingView::<H>::Uninitialized;
    if events.len() > 0 {
        let front = events.drop_last();
        lemma_exactly_one_load(front);
        if exists|i: int| 0 <= i < front.len() && #[trigger] front[i] is Request {
            let i = choose|i: int| 0 <= i < front.len() && #[trigger] front[i] is Request;
            assert(events[i] is Request);
        }
        if events.last() is Request {
            assert(events[events.len() - 1] is Request);
        }
        if start.loads(events) == 1 && start.loads(front) == 0 {
            assert(events[events.len() - 1] is Request);
        }
        if exists|i: int| 0 <= i < events.len() && #[trigger] events[i] is Request {
            let i = choose|i: int| 0 <= i < events.len() && #[trigger] events[i] is Request;
            if i < front.len() {
                assert(front[i] is Request);
            }
        }
    }
}

/// All callers are given one outcome: once a run of events has reached a
/// final state, every longer run is in that same state, with the same handle
/// or the same failure, and every caller that asks is told the same.
pub proof fn lemma_one_outcome<H>(events: Seq<Event<H>>, i: int, j: int)
    requires
        0 <= i <= j <= events.len(),
        BindingView::<H>::Uninitialized.after_all(events.take(i)).is_terminal(),
    ensures
        BindingView::<H>::Uninitialized.after_all(events.take(j)) == BindingView::<
            H,
        >::Uninitialized.after_all(events.take(i)),
        forall|early: Seq<char>, late: Seq<char>|
            #![trigger
                BindingView::<H>::Uninitialized.after_all(events.take(i)).reply(early),
                BindingView::<H>::Uninitialized.after_all(events.take(j)).reply(late)
            ]
            BindingView::<H>::Uninitialized.after_all(events.take(j)).reply(late) == BindingView::<
                H,
            >::Uninitialized.after_all(events.take(i)).reply(early),
{
    let start = BindingView::<H>::Uninitialized;
    assert(events.take(j) =~= events.take(i) + events.subrange(i, j));
    lemma_after_all_add(start, events.take(i), events.subrange(i, j));
    lemma_terminal_is_sticky(start.after_all(events.take(i)), events.subrange(i, j));
}

/// Calls `libloading::library_filename`, which puts the platform's prefix
/// for dynamic libraries before the name and its suffix after it. Which
/// prefix and suffix these are is the platform's matter, so the contract
/// says only that the name stands between the two. The file name comes back
/// as a `String`: it is put together from text, so nothing is lost. The name
/// is kept short, since the outside function reserves room for all three
/// parts at once.
#[verifier::external_body]
fn library_filename(name: &str) -> (filename: String)
    requires
        name@.len() <= 255,
    ensures
        is_library_filename(filename@, name@),
{
    libloading::library_filename(name).to_string_lossy().into_owned()
}

impl LoadFailure {
    /// The text shown to the operator.
    pub fn message(&self) -> (text: String)
        ensures
            text@ == self@.message(),
    {
        let mut text = String::from_str("Unable to load `");
        text.append(self.filename.as_str());
        text.append("`: ");
        text.append(self.reason.as_str());
        text
    }
}

impl<H> Binding<H> {
    /// A binding that no caller has asked for yet.
    pub fn new() -> (binding: Self)
        ensures
            binding@ == BindingView::<H>::Uninitialized,
    {
        Binding::Uninitialized
    }

    /// Whether the state is final.
    pub fn is_terminal(&self) -> (terminal: bool)
        ensures
            terminal == self@.is_terminal(),
    {
        match self {
            Binding::Ready { .. } => true,
            Binding::Failed { .. } => true,
            _ => false,
        }
    }

    /// A caller asks for the handle, the library's file name being
    /// `filename`. The first caller is told to load, and the binding then
    /// waits for its report; every other caller is told where the binding
    /// stands, and changes nothing.
    pub fn request(&mut self, filename: String) -> (access: Access)
        ensures
            final(self)@ == old(self)@.after_request(filename@),
            access@ == old(self)@.reply(filename@),
    {
        match self {
            Binding::Uninitialized => {
                let access = Access::Load { filename: filename.clone() };
                *self = Binding::Initializing { filename };
                access
            },
            Binding::Initializing { .. } => Access::Wait,
            Binding::Ready { .. } => Access::Ready,
            Binding::Failed { failure } => Access::Failed {
                failure: LoadFailure {
                    filename: failure.filename.clone(),
                    reason: failure.reason.clone(),
                },
            },
        }
    }

    /// The caller that loads reports: a handle, or the loader's words. The
    /// report is taken only while a load is under way, and the result says
    /// whether it was; a final state is never left.
    pub fn complete(&mut self, outcome: Result<H, String>) -> (recorded: bool)
        ensures
            final(self)@ == old(self)@.after_completion(
                match outcome {
                    Ok(handle) => Ok(handle),
                    Err(reason) => Err(reason@),
                },
            ),
            recorded == old(self)@ is Initializing,
    {
        match self {
            Binding::Initializing { filename } => {
                let filename = filename.clone();
                match outcome {
                    Ok(handle) => {
                        *self = Binding::Ready { handle };
                    },
                    Err(reason) => {
                        *self = Binding::Failed { failure: LoadFailure { filename, reason } };
                    },
                }
                true
            },
            _ => false,
        }
    }

    /// The handle, once the library is bound.
    pub fn handle(&self) -> (handle: Option<&H>)
        ensures
            match handle {
                Some(handle) => self@ == BindingView::Ready { handle: *handle },
                None => !(self@ is Ready),
            },
    {
        match self {
            Binding::Ready { handle } => Some(handle),
            _ => None,
        }
    }

    /// The failure, once the library could not be bound.
    pub fn failure(&self) -> (failure: Option<&LoadFailure>)
        ensures
            match failure {
                Some(failure) => self@ == BindingView::<H>::Failed { failure: failure@ },
                None => !(self@ is Failed),
            },
    {
        match self {
            Binding::Failed { failure } => Some(failure),
            _ => None,
        }
    }
}

/// A caller asks for the handle of the runtime-compilation library. The
/// file name is derived from the library's logical name as the platform
/// has it. The first caller is told to load the library of that file name;
/// every other caller is told where the binding stands.
pub fn lib<H>(binding: &mut Binding<H>) -> (access: Access)
    ensures
        exists|filename: Seq<char>|
            {
                &&& is_library_filename(filename, LIBRARY_NAME@)
                &&& final(binding)@ == #[trigger] old(binding)@.after_request(filename)
                &&& access@ == old(binding)@.reply(filename)
            },
{
    proof {
        reveal_strlit("nvrtc");
    }
    let filename = library_filename(LIBRARY_NAME);
    binding.request(filename)
}

} // verus!
