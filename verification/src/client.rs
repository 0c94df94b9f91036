//! What the dispatch core needs of a connection besides its registry: the queue of
//! scheduled destructor callbacks and the mark that ends the connection.

use vstd::prelude::*;
use crate::resource::ResourceInner;

verus! {

/// Whether a destructor callback for the object `id` is in the queue.
pub open spec fn is_scheduled(queue: Seq<ResourceInner>, id: u32) -> bool {
    exists|i: int| 0 <= i < queue.len() && #[trigger] queue[i].id == id
}

/// The queue after a destructor callback for `resource` has been scheduled: an object
/// that is already in the queue is not entered again.
pub open spec fn schedule(queue: Seq<ResourceInner>, resource: ResourceInner) -> Seq<ResourceInner> {
    if is_scheduled(queue, resource.id) {
        queue
    } else {
        queue.push(resource)
    }
}

/// No object occurs twice in the queue.
pub open spec fn distinct_ids(queue: Seq<ResourceInner>) -> bool {
    forall|i: int, j: int|
        0 <= i < j < queue.len() ==> #[trigger] queue[i].id != #[trigger] queue[j].id
}

/// Scheduling keeps a queue free of repetitions.
pub proof fn schedule_keeps_distinct(queue: Seq<ResourceInner>, resource: ResourceInner)
    requires
        distinct_ids(queue),
    ensures
        distinct_ids(schedule(queue, resource)),
        is_scheduled(schedule(queue, resource), resource.id),
{
    let after = schedule(queue, resource);
    if is_scheduled(queue, resource.id) {
    } else {
        assert(after[queue.len() as int].id == resource.id);
        assert forall|i: int, j: int| 0 <= i < j < after.len() implies #[trigger] after[i].id
            != #[trigger] after[j].id by {
            if j == queue.len() {
                assert(queue[i].id != resource.id);
            }
        }
    }
}

/// The state of a client as the dispatch core sees it.
pub struct ClientState {
    /// The scheduled destructor callbacks in the order in which they were scheduled, or
    /// `None` once the connection data is gone.
    pub data: Option<Seq<ResourceInner>>,
    /// Whether the connection has been marked for termination.
    pub killed: bool,
}

/// The connection of one client.
///
/// Its data may be gone already (the connection was torn down); then nothing can be
/// scheduled any more. The termination mark is set once and never cleared.
pub struct ClientInner {
    connected: bool,
    destructors: Vec<ResourceInner>,
    killed: bool,
}

impl View for ClientInner {
    type V = ClientState;

    closed spec fn view(&self) -> ClientState {
        ClientState {
            data: if self.connected {
                Some(self.destructors@)
            } else {
                None
            },
            killed: self.killed,
        }
    }
}

impl ClientInner {
    #[verifier::type_invariant]
    spec fn queue_is_sound(self) -> bool {
        distinct_ids(self.destructors@) && (!self.connected ==> self.destructors@.len() == 0)
    }

    /// A client whose connection data exists, with nothing scheduled.
    pub fn new() -> (client: ClientInner)
        ensures
            client@ == (ClientState { data: Some(Seq::empty()), killed: false }),
    {
        ClientInner { connected: true, destructors: Vec::new(), killed: false }
    }

    /// A client whose connection data is gone.
    pub fn gone() -> (client: ClientInner)
        ensures
            client@ == (ClientState { data: None, killed: false }),
    {
        ClientInner { connected: false, destructors: Vec::new(), killed: false }
    }

    /// Whether the connection data still exists.
    pub fn has_data(&self) -> (present: bool)
        ensures
            present == self@.data is Some,
    {
        self.connected
    }

    /// Whether the connection has been marked for termination.
    pub fn is_killed(&self) -> (killed: bool)
        ensures
            killed == self@.killed,
    {
        self.killed
    }

    /// Marks the connection for termination. The mark stays.
    pub fn kill(&mut self)
        ensures
            final(self)@ == (ClientState { killed: true, ..old(self)@ }),
    {
        proof {
            use_type_invariant(&*self);
        }
        self.killed = true;
    }

    /// Schedules the destructor callback of `resource`, unless the connection data is
    /// gone or the object is scheduled already.
    pub fn schedule_destructor(&mut self, resource: ResourceInner)
        ensures
            final(self)@ == (ClientState {
                data: match old(self)@.data {
                    Some(queue) => Some(schedule(queue, resource)),
                    None => None,
                },
                ..old(self)@
            }),
    {
        proof {
            use_type_invariant(&*self);
        }
        if !self.connected {
            return ;
        }
        let n: usize = self.destructors.len();
        let mut i: usize = 0;
        while i < n
            invariant
                i <= n,
                n == self.destructors@.len(),
                forall|k: int| 0 <= k < i ==> self.destructors@[k].id != resource.id,
            decreases n - i,
        {
            if self.destructors[i].id == resource.id {
                return ;
            }
            i += 1;
        }
        let mut queue: Vec<ResourceInner> = Vec::new();
        std::mem::swap(&mut queue, &mut self.destructors);
        queue.push(resource);
        self.destructors = queue;
    }

    /// Hands out the scheduled destructor callbacks, oldest first, and leaves the queue
    /// empty. No object occurs twice in what is handed out.
    pub fn take_scheduled(&mut self) -> (queue: Vec<ResourceInner>)
        ensures
            queue@ == match old(self)@.data {
                Some(queue) => queue,
                None => Seq::empty(),
            },
            distinct_ids(queue@),
            final(self)@ == (ClientState {
                data: match old(self)@.data {
                    Some(_) => Some(Seq::empty()),
                    None => None,
                },
                ..old(self)@
            }),
    {
        proof {
            use_type_invariant(&*self);
        }
        let mut queue: Vec<ResourceInner> = Vec::new();
        std::mem::swap(&mut queue, &mut self.destructors);
        queue
    }

    /// The scheduled destructor callbacks, oldest first. No object occurs twice.
    pub fn scheduled(&self) -> (queue: Vec<ResourceInner>)
        ensures
            queue@ == match self@.data {
                Some(queue) => queue,
                None => Seq::empty(),
            },
            distinct_ids(queue@),
    {
        proof {
            use_type_invariant(self);
        }
        let ghost target = self.destructors@;
        let n: usize = self.destructors.len();
        let mut queue: Vec<ResourceInner> = Vec::new();
        let mut i: usize = 0;
        while i < n
            invariant
                i <= n,
                n == self.destructors@.len(),
                queue@ == self.destructors@.take(i as int),
            decreases n - i,
        {
            queue.push(self.destructors[i]);
            proof {
                assert(self.destructors@.take(i + 1) =~= self.destructors@.take(i as int).push(
                    self.destructors@[i as int],
                ));
            }
            i += 1;
        }
        proof {
            assert(self.destructors@.take(n as int) =~= self.destructors@);
        }
        queue
    }
}

} // verus!
