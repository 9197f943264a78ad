//! Which application takes a packet: each application names the
//! headers it is for, and a packet goes to the first application that
//! names its header.

use vstd::prelude::*;
use crate::error::NetworkError;
use crate::header::Header;

verus! {

/// An application that takes the messages of packets.
///
/// An application may say in `spec_event` which headers it is for. If
/// it does, it says so in `obeys_event_spec`, and `get_event` answers
/// with those headers. An application that says nothing of the kind
/// promises nothing of its answer.
pub trait TaskApp {
    /// Whether `get_event` answers with `spec_event`.
    open spec fn obeys_event_spec(&self) -> bool {
        false
    }

    /// The headers that the application is for, as it stands.
    open spec fn spec_event(&self) -> Seq<Header> {
        Seq::empty()
    }

    /// Takes the messages of a packet.
    fn process_messages(&mut self, messages: Vec<u8>) -> (r: Result<(), NetworkError>);

    /// The headers that the application is for.
    fn get_event(&self) -> (r: Vec<Header>)
        ensures
            self.obeys_event_spec() ==> r@ == self.spec_event(),
    ;
}

/// An application, as the task manager holds it, and the headers that
/// it named when it was taken in.
pub struct Task {
    app: Box<dyn TaskApp>,
    events: Vec<Header>,
}

/// The applications of a node, in the order in which they were added.
pub struct TaskManager {
    tasks: Vec<Task>,
}

/// The application for the packets with which units find their places.
/// Such packets are head flits alone: there are no messages to take.
pub struct SystemTask();

/// The position of the first application that names the header.
pub open spec fn spec_first_task(events: Seq<Seq<Header>>, header: Header) -> Option<int> {
    if exists|k: int| 0 <= k < events.len() && #[trigger] events[k].contains(header) {
        Some(spec_first_task_at(events, header))
    } else {
        None
    }
}

/// Whether the application at `k` names the header and none before it
/// does.
pub open spec fn spec_is_first_task(events: Seq<Seq<Header>>, header: Header, k: int) -> bool {
    &&& 0 <= k < events.len()
    &&& events[k].contains(header)
    &&& forall|n: int| 0 <= n < k ==> !(#[trigger] events[n]).contains(header)
}

pub open spec fn spec_first_task_at(events: Seq<Seq<Header>>, header: Header) -> int {
    choose|k: int| spec_is_first_task(events, header, k)
}

/// Whether a sequence of headers holds the header.
fn names(events: &Vec<Header>, header: Header) -> (r: bool)
    ensures
        r == events@.contains(header),
{
    let mut n: usize = 0;
    while n < events.len()
        invariant
            n <= events.len(),
            forall|m: int| 0 <= m < n ==> events@[m] != header,
        decreases events.len() - n,
    {
        if events[n] == header {
            return true;
        }
        n += 1;
    }
    false
}

impl Task {
    /// The headers that the application named when it was taken in.
    pub closed spec fn spec_event(&self) -> Seq<Header> {
        self.events@
    }

    /// The application that the task holds.
    pub closed spec fn spec_app(&self) -> &Box<dyn TaskApp> {
        &self.app
    }

    /// Takes in an application and asks it for its headers: the task
    /// holds the application and the headers that it answered with.
    /// Of an application that says which headers it is for, these are
    /// the headers.
    pub fn new(app: Box<dyn TaskApp>) -> (task: Task)
        ensures
            *task.spec_app() === app,
            app.obeys_event_spec() ==> task.spec_event() == app.spec_event(),
    {
        let events = app.get_event();
        Task { app, events }
    }

    /// The headers that the application named when it was taken in.
    pub fn get_event(&self) -> (r: &Vec<Header>)
        ensures
            r@ == self.spec_event(),
    {
        &self.events
    }
}

impl TaskManager {
    /// The headers of the applications, one sequence for each.
    pub closed spec fn events(&self) -> Seq<Seq<Header>> {
        Seq::new(self.tasks@.len(), |k: int| self.tasks@[k].spec_event())
    }

    pub fn new() -> (manager: Self)
        ensures
            manager.events() == Seq::<Seq<Header>>::empty(),
    {
        let manager = Self { tasks: Vec::new() };
        assert(manager.events() =~= Seq::<Seq<Header>>::empty());
        manager
    }

    pub fn add_task(&mut self, task: Task)
        ensures
            final(self).events() == old(self).events().push(task.spec_event()),
    {
        self.tasks.push(task);
        assert(self.events() =~= old(self).events().push(task.spec_event()));
    }

    /// The position of the first application that names the header.
    pub fn find_task(&self, header: Header) -> (r: Option<usize>)
        ensures
            match r {
                Some(k) => spec_first_task(self.events(), header) == Some(k as int)
                    && spec_is_first_task(self.events(), header, k as int),
                None => spec_first_task(self.events(), header) is None,
            },
    {
        let mut k: usize = 0;
        while k < self.tasks.len()
            invariant
                k <= self.tasks.len(),
                self.events().len() == self.tasks@.len(),
                forall|n: int| 0 <= n < k ==> !(#[trigger] self.events()[n]).contains(header),
            decreases self.tasks.len() - k,
        {
            assert(self.events()[k as int] == self.tasks@[k as int].spec_event());
            if names(self.tasks[k].get_event(), header) {
                assert(spec_is_first_task(self.events(), header, k as int));
                let ghost chosen = spec_first_task_at(self.events(), header);
                assert(spec_is_first_task(self.events(), header, chosen));
                assert(chosen == k);
                return Some(k);
            }
            k += 1;
        }
        None
    }

    /// Hands the messages of a packet with the given header to the
    /// first application that names the header. Returns what the
    /// application made of them, or nothing where no application names
    /// the header.
    pub fn interrupt(&mut self, header: Header, message: Vec<u8>) -> (r: Option<
        Result<(), NetworkError>,
    >)
        ensures
            final(self).events() == old(self).events(),
            r is Some <==> spec_first_task(old(self).events(), header) is Some,
    {
        let k = match self.find_task(header) {
            Some(k) => k,
            None => {
                return None;
            },
        };
        let ghost before = self.events();
        let ghost tasks = self.tasks@;
        let task = self.tasks.remove(k);
        let ghost removed = self.tasks@;
        let Task { app, events } = task;
        let mut app = app;
        let result = app.process_messages(message);
        let task = Task { app, events };
        self.tasks.insert(k, task);
        proof {
            tasks.remove_ensures(k as int);
            removed.insert_ensures(k as int, task);
            assert(self.tasks@ =~= tasks.update(k as int, task));
            assert forall|n: int| 0 <= n < before.len() implies self.events()[n] == before[n] by {
                assert(before[n] == tasks[n].spec_event());
            }
            assert(self.events() =~= before);
        }
        Some(result)
    }
}

impl TaskApp for SystemTask {
    open spec fn obeys_event_spec(&self) -> bool {
        true
    }

    open spec fn spec_event(&self) -> Seq<Header> {
        seq![Header::HCheckConnection, Header::HRequestConfirmedCoordinate]
    }

    fn process_messages(&mut self, messages: Vec<u8>) -> (r: Result<(), NetworkError>)
        ensures
            r is Ok <==> messages@.len() == 0,
    {
        if messages.len() == 0 {
            Ok(())
        } else {
            Err(NetworkError::UnexpectedFlitType)
        }
    }

    fn get_event(&self) -> (r: Vec<Header>)
        ensures
            r@ == seq![Header::HCheckConnection, Header::HRequestConfirmedCoordinate],
    {
        let mut events = Vec::new();
        events.push(Header::HCheckConnection);
        events.push(Header::HRequestConfirmedCoordinate);
        events
    }
}

} // verus!
