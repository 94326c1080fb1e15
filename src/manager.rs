//! The manager: the registry of twin inboxes by asset id, and the rule that
//! admits each asset id once at bootstrap.
use vstd::prelude::*;
use crate::actor::string_views;
use crate::receiver::{NetworkMessage, ReceiverView};
use crate::search::str_eq;
use crate::tables::Registry;
use vstd::string::StringExecFns;

verus! {

/// Errors of the manager's bootstrap.
pub enum Error {
    /// Reading the twins directory failed.
    IoError(String),
    /// Any other failure, such as a shell that does not parse.
    GenericError(String),
}

impl Error {
    /// A description of the error.
    pub fn message(&self) -> (r: String)
        ensures
            r@ == (match self {
                Error::IoError(s) => s@,
                Error::GenericError(s) => "generic error: "@ + s@,
            }),
    {
        match self {
            Error::IoError(s) => s.clone(),
            Error::GenericError(s) => {
                let mut r = "generic error: ".to_owned();
                r.append(s.as_str());
                r
            },
        }
    }
}

/// Messages to the manager.
pub enum ManagerMessage<C> {
    /// Bootstrap the twins (sent once at startup).
    Initialize,
    /// Record the inbox of a twin.
    Register(String, C),
}

/// The registry after a message.
pub open spec fn manager_after<C>(m: Map<Seq<char>, C>, msg: ManagerMessage<C>) -> Map<Seq<char>, C> {
    match msg {
        ManagerMessage::Initialize => m,
        ManagerMessage::Register(id, ch) => m.insert(id@, ch),
    }
}

/// The registry after a sequence of messages, in order.
pub open spec fn manager_run<C>(m: Map<Seq<char>, C>, msgs: Seq<ManagerMessage<C>>) -> Map<Seq<char>, C>
    decreases msgs.len(),
{
    if msgs.len() == 0 {
        m
    } else {
        manager_run(manager_after(m, msgs[0]), msgs.drop_first())
    }
}

/// The receiver's tables after a sequence of control messages, in order.
pub open spec fn receiver_run<C>(r: ReceiverView<C>, msgs: Seq<NetworkMessage<C>>) -> ReceiverView<C>
    decreases msgs.len(),
{
    if msgs.len() == 0 {
        r
    } else {
        receiver_run(r.handle(msgs[0]), msgs.drop_first())
    }
}

/// The manager's registry of twin inboxes.
pub struct Manager<C> {
    actors: Registry<C>,
}

impl<C> View for Manager<C> {
    type V = Map<Seq<char>, C>;

    closed spec fn view(&self) -> Map<Seq<char>, C> {
        self.actors@
    }
}

impl<C> Manager<C> {
    /// A manager with an empty registry.
    pub fn new() -> (r: Manager<C>)
        ensures
            r@ == Map::<Seq<char>, C>::empty(),
    {
        Manager { actors: Registry::new() }
    }

    /// Applies a message. `Register` records (or replaces) a twin's inbox;
    /// `Initialize` changes nothing and returns `true`: the caller then
    /// bootstraps the twins.
    pub fn handle(&mut self, msg: ManagerMessage<C>) -> (initialize: bool)
        ensures
            final(self)@ == manager_after(old(self)@, msg),
            initialize == (msg is Initialize),
    {
        match msg {
            ManagerMessage::Initialize => true,
            ManagerMessage::Register(id, ch) => {
                self.actors.register(id, ch);
                false
            },
        }
    }

    /// The inbox of asset `id`, if registered.
    pub fn actor(&self, id: &str) -> (r: Option<&C>)
        ensures
            r matches Some(c) ==> self@.contains_key(id@) && self@[id@] == *c,
            r is None ==> !self@.contains_key(id@),
    {
        self.actors.get(id)
    }
}

/// For each asset id in bootstrap order, whether it repeats an earlier one; a
/// repeated id is rejected and the first kept.
pub fn find_duplicates(ids: &Vec<String>) -> (r: Vec<bool>)
    ensures
        r@.len() == ids@.len(),
        forall|i: int|
            0 <= i < ids@.len() ==> #[trigger] r@[i] == string_views(ids@).subrange(0, i).contains(
                ids@[i]@,
            ),
{
    let ghost ss = string_views(ids@);
    let mut r: Vec<bool> = Vec::new();
    let mut i: usize = 0;
    while i < ids.len()
        invariant
            i <= ids@.len(),
            ss == string_views(ids@),
            r@.len() == i,
            forall|k: int| 0 <= k < i ==> #[trigger] r@[k] == ss.subrange(0, k).contains(ids@[k]@),
        decreases ids@.len() - i,
    {
        let mut seen = false;
        let mut j: usize = 0;
        while j < i
            invariant
                i < ids@.len(),
                j <= i,
                ss == string_views(ids@),
                seen == ss.subrange(0, j as int).contains(ids@[i as int]@),
            decreases i - j,
        {
            let ghost pre = ss.subrange(0, j as int + 1);
            assert(pre =~= ss.subrange(0, j as int).push(ss[j as int]));
            if str_eq(ids[j].as_str(), ids[i].as_str()) {
                seen = true;
                assert(pre[j as int] == ids@[i as int]@);
            } else if seen {
            } else {
                assert forall|k: int| 0 <= k < pre.len() implies pre[k] != ids@[i as int]@ by {
                    if k < j {
                        assert(pre[k] == ss.subrange(0, j as int)[k]);
                    }
                }
            }
            j = j + 1;
        }
        r.push(seen);
        i = i + 1;
    }
    r
}

/// Once a twin's registration has reached the manager and the receiver, both
/// hold an entry for its asset id, and keep it whatever control messages
/// follow.
pub proof fn lemma_registration_settles<C>(
    m: Map<Seq<char>, C>,
    r: ReceiverView<C>,
    id: String,
    to_manager: C,
    to_receiver: C,
    manager_later: Seq<ManagerMessage<C>>,
    receiver_later: Seq<NetworkMessage<C>>,
)
    ensures
        manager_run(manager_after(m, ManagerMessage::Register(id, to_manager)), manager_later).contains_key(
            id@,
        ),
        receiver_run(r.handle(NetworkMessage::Register(id, to_receiver)), receiver_later).channels.contains_key(
            id@,
        ),
{
    lemma_manager_keeps(manager_after(m, ManagerMessage::Register(id, to_manager)), id@, manager_later);
    lemma_receiver_keeps(r.handle(NetworkMessage::Register(id, to_receiver)), id@, receiver_later);
}

/// No manager message removes a registered id.
proof fn lemma_manager_keeps<C>(m: Map<Seq<char>, C>, id: Seq<char>, msgs: Seq<ManagerMessage<C>>)
    requires
        m.contains_key(id),
    ensures
        manager_run(m, msgs).contains_key(id),
    decreases msgs.len(),
{
    if msgs.len() > 0 {
        lemma_manager_keeps(manager_after(m, msgs[0]), id, msgs.drop_first());
    }
}

/// No control message removes a registered inbox from the receiver.
proof fn lemma_receiver_keeps<C>(r: ReceiverView<C>, id: Seq<char>, msgs: Seq<NetworkMessage<C>>)
    requires
        r.channels.contains_key(id),
    ensures
        receiver_run(r, msgs).channels.contains_key(id),
    decreases msgs.len(),
{
    if msgs.len() > 0 {
        lemma_receiver_keeps(r.handle(msgs[0]), id, msgs.drop_first());
    }
}

} // verus!
