//! The network receiver's routing: which twins a decoded bus message goes to,
//! and the tables that registration and subscription messages maintain.
use vstd::prelude::*;
use crate::actor::string_views;
use crate::runner::ActorMessage;
use crate::tables::{Registry, Subscriptions, add_subscriptions, subscribers_in};

verus! {

/// Where the receiver connects and what it listens to.
pub struct NetworkOptions {
    /// Broker address, e.g. "localhost".
    pub broker: String,
    /// Topic to subscribe to.
    pub topic: String,
}

impl NetworkOptions {
    /// Options for `broker`, on `topic` or else on `twins/updates`.
    pub fn new(broker: String, topic: Option<String>) -> (r: NetworkOptions)
        ensures
            r.broker@ == broker@,
            r.topic@ == (match topic {
                Some(t) => t@,
                None => "twins/updates"@,
            }),
    {
        let topic = match topic {
            Some(t) => t,
            None => "twins/updates".to_owned(),
        };
        NetworkOptions { broker, topic }
    }
}

/// Control messages from twin runners.
pub enum NetworkMessage<C> {
    /// Register the inbox of an asset.
    Register(String, C),
    /// Subscribe an asset to a list of device ids.
    Subscribe(String, Vec<String>),
}

/// A sensor reading on the bus, in thousandths of its unit.
pub struct Update {
    pub object: String,
    pub value: i64,
}

/// A command on the bus, directed at one asset.
pub struct Command {
    pub target: String,
    pub command: String,
    pub args: serde_json::Value,
}

/// A decoded bus message: a reading, a command, or both.
pub struct WireMessage {
    pub update: Option<Update>,
    pub command: Option<Command>,
}

/// A message to send on the inbox of asset `target`.
pub struct Delivery {
    pub target: String,
    pub message: ActorMessage,
}

/// What a delivery sends, to whom.
pub enum Routed {
    Input { target: Seq<char>, device: Seq<char>, value: i64 },
    Command { target: Seq<char>, command: Seq<char> },
}

impl View for Delivery {
    type V = Routed;

    open spec fn view(&self) -> Routed {
        match self.message {
            ActorMessage::InputChange(device, value) => Routed::Input {
                target: self.target@,
                device: device@,
                value,
            },
            ActorMessage::Command(command, _) => Routed::Command { target: self.target@, command: command@ },
        }
    }
}

/// The deliveries that a routing produced.
pub open spec fn delivery_views(ds: Seq<Delivery>) -> Seq<Routed> {
    ds.map_values(|d: Delivery| d@)
}

/// The receiver's tables: inbox per asset, subscribers per device.
pub struct ReceiverView<C> {
    pub channels: Map<Seq<char>, C>,
    pub subscriptions: Map<Seq<char>, Seq<Seq<char>>>,
}

/// Whether an asset has a registered inbox.
pub open spec fn has_inbox<C>(channels: Map<Seq<char>, C>) -> spec_fn(Seq<char>) -> bool {
    |a: Seq<char>| channels.contains_key(a)
}

/// Whether an asset has no registered inbox.
pub open spec fn lacks_inbox<C>(channels: Map<Seq<char>, C>) -> spec_fn(Seq<char>) -> bool {
    |a: Seq<char>| !channels.contains_key(a)
}

/// Input deliveries of a reading to each of `targets`.
pub open spec fn input_routes(targets: Seq<Seq<char>>, device: Seq<char>, value: i64) -> Seq<Routed> {
    targets.map_values(|t: Seq<char>| Routed::Input { target: t, device, value })
}

impl<C> ReceiverView<C> {
    /// The tables after a control message.
    pub open spec fn handle(self, msg: NetworkMessage<C>) -> ReceiverView<C> {
        match msg {
            NetworkMessage::Register(id, ch) => ReceiverView { channels: self.channels.insert(id@, ch), ..self },
            NetworkMessage::Subscribe(id, devices) => ReceiverView {
                subscriptions: add_subscriptions(self.subscriptions, id@, string_views(devices@)),
                ..self
            },
        }
    }

    /// Deliveries for a reading: one per subscriber of the device that has an
    /// inbox, in subscription order.
    pub open spec fn update_routes(self, device: Seq<char>, value: i64) -> Seq<Routed> {
        input_routes(subscribers_in(self.subscriptions, device).filter(has_inbox(self.channels)), device, value)
    }

    /// Subscribers of the device without an inbox; they are skipped.
    pub open spec fn update_dropped(self, device: Seq<char>) -> Seq<Seq<char>> {
        subscribers_in(self.subscriptions, device).filter(lacks_inbox(self.channels))
    }

    /// Deliveries for a message: those of its reading, then its command where
    /// the target has an inbox.
    pub open spec fn routes(self, msg: WireMessage) -> Seq<Routed> {
        let u = match msg.update {
            Some(u) => self.update_routes(u.object@, u.value),
            None => seq![],
        };
        let c = match msg.command {
            Some(c) => if self.channels.contains_key(c.target@) {
                seq![Routed::Command { target: c.target@, command: c.command@ }]
            } else {
                seq![]
            },
            None => seq![],
        };
        u + c
    }

    /// Assets that a message was meant for but that have no inbox: the
    /// reading's, then the command's.
    pub open spec fn dropped(self, msg: WireMessage) -> Seq<Seq<char>> {
        let u = match msg.update {
            Some(u) => self.update_dropped(u.object@),
            None => seq![],
        };
        let c = match msg.command {
            Some(c) => if self.channels.contains_key(c.target@) {
                seq![]
            } else {
                seq![c.target@]
            },
            None => seq![],
        };
        u + c
    }
}

/// Routing of a message: the deliveries to make, and the asset ids that had
/// no inbox.
pub struct Routing {
    pub deliveries: Vec<Delivery>,
    pub dropped: Vec<String>,
}

/// The receiver's routing state.
pub struct NetworkReceiver<C> {
    asset_channels: Registry<C>,
    subscriptions: Subscriptions,
    options: NetworkOptions,
}

impl<C> View for NetworkReceiver<C> {
    type V = ReceiverView<C>;

    closed spec fn view(&self) -> ReceiverView<C> {
        ReceiverView { channels: self.asset_channels@, subscriptions: self.subscriptions@ }
    }
}

/// A reading of a device without subscribers is sent to no inbox.
pub proof fn lemma_no_subscribers_no_sends<C>(v: ReceiverView<C>, device: Seq<char>, value: i64)
    requires
        !v.subscriptions.contains_key(device),
    ensures
        v.update_routes(device, value) == Seq::<Routed>::empty(),
        v.update_dropped(device) == Seq::<Seq<char>>::empty(),
{
    reveal(Seq::filter);
    assert(subscribers_in(v.subscriptions, device) =~= Seq::<Seq<char>>::empty());
    assert(v.update_routes(device, value) =~= Seq::<Routed>::empty());
}


impl<C> NetworkReceiver<C> {
    /// A receiver with empty tables.
    pub fn new(options: NetworkOptions) -> (r: NetworkReceiver<C>)
        ensures
            r@.channels == Map::<Seq<char>, C>::empty(),
            r@.subscriptions == Map::<Seq<char>, Seq<Seq<char>>>::empty(),
            r.spec_options() == options,
    {
        NetworkReceiver { asset_channels: Registry::new(), subscriptions: Subscriptions::new(), options }
    }

    /// The receiver's options.
    pub closed spec fn spec_options(&self) -> NetworkOptions {
        self.options
    }

    /// The receiver's options.
    pub fn options(&self) -> (r: &NetworkOptions)
        ensures
            *r == self.spec_options(),
    {
        &self.options
    }

    /// Applies a control message: `Register` records (or replaces) an asset's
    /// inbox; `Subscribe` appends the asset to the subscribers of each device.
    pub fn handle(&mut self, msg: NetworkMessage<C>)
        ensures
            final(self)@ == old(self)@.handle(msg),
            final(self).spec_options() == old(self).spec_options(),
    {
        match msg {
            NetworkMessage::Register(id, ch) => {
                self.asset_channels.register(id, ch);
            },
            NetworkMessage::Subscribe(id, devices) => {
                self.subscriptions.add_all(&id, &devices);
            },
        }
    }

    /// The inbox of asset `id`, if registered.
    pub fn channel(&self, id: &str) -> (r: Option<&C>)
        ensures
            r matches Some(c) ==> self@.channels.contains_key(id@) && self@.channels[id@] == *c,
            r is None ==> !self@.channels.contains_key(id@),
    {
        self.asset_channels.get(id)
    }

    /// Routes a decoded message. A reading goes, as an input change, to every
    /// subscriber of its device that has an inbox; a command goes to its target
    /// if that has an inbox. The other assets are listed as dropped.
    pub fn route(&self, msg: WireMessage) -> (r: Routing)
        ensures
            delivery_views(r.deliveries@) == self@.routes(msg),
            string_views(r.dropped@) == self@.dropped(msg),
            match msg.command {
                Some(c) => self@.channels.contains_key(c.target@) ==> r.deliveries@.last().message
                    == ActorMessage::Command(c.command, c.args),
                None => true,
            },
    {
        let ghost v = self@;
        let ghost m = msg;
        let WireMessage { update, command } = msg;
        let mut deliveries: Vec<Delivery> = Vec::new();
        let mut dropped: Vec<String> = Vec::new();
        match &update {
            Some(u) => {
                match self.subscriptions.subscribers(u.object.as_str()) {
                    Some(subs) => {
                        let ghost ss = string_views(subs@);
                        let ghost dev = u.object@;
                        let mut i: usize = 0;
                        proof {
                            reveal(Seq::filter);
                            assert(ss.subrange(0, 0) =~= Seq::<Seq<char>>::empty());
                            assert(delivery_views(deliveries@) =~= input_routes(
                                ss.subrange(0, 0).filter(has_inbox(v.channels)),
                                dev,
                                u.value,
                            ));
                            assert(string_views(dropped@) =~= ss.subrange(0, 0).filter(
                                lacks_inbox(v.channels),
                            ));
                        }
                        while i < subs.len()
                            invariant
                                v == self@,
                                i <= subs@.len(),
                                ss == string_views(subs@),
                                dev == u.object@,
                                delivery_views(deliveries@) == input_routes(
                                    ss.subrange(0, i as int).filter(has_inbox(v.channels)),
                                    dev,
                                    u.value,
                                ),
                                string_views(dropped@) == ss.subrange(0, i as int).filter(
                                    lacks_inbox(v.channels),
                                ),
                            decreases subs@.len() - i,
                        {
                            let a = &subs[i];
                            let ghost pre = ss.subrange(0, i as int + 1);
                            let ghost before_d = delivery_views(deliveries@);
                            let ghost before_x = string_views(dropped@);
                            proof {
                                reveal(Seq::filter);
                                assert(pre.drop_last() =~= ss.subrange(0, i as int));
                                assert(pre.last() == a@);
                            }
                            if self.asset_channels.contains(a.as_str()) {
                                let msg = ActorMessage::InputChange(u.object.clone(), u.value);
                                deliveries.push(Delivery { target: a.clone(), message: msg });
                                assert(delivery_views(deliveries@) =~= before_d.push(
                                    Routed::Input { target: a@, device: dev, value: u.value },
                                ));
                                assert(input_routes(pre.filter(has_inbox(v.channels)), dev, u.value)
                                    =~= input_routes(
                                    ss.subrange(0, i as int).filter(has_inbox(v.channels)),
                                    dev,
                                    u.value,
                                ).push(Routed::Input { target: a@, device: dev, value: u.value }));
                            } else {
                                dropped.push(a.clone());
                                assert(string_views(dropped@) =~= before_x.push(a@));
                            }
                            i = i + 1;
                        }
                        assert(ss.subrange(0, i as int) =~= ss);
                    },
                    None => {
                        proof {
                            lemma_no_subscribers_no_sends(v, u.object@, u.value);
                        }
                        assert(delivery_views(deliveries@) =~= Seq::<Routed>::empty());
                        assert(string_views(dropped@) =~= Seq::<Seq<char>>::empty());
                    },
                }
            },
            None => {
                assert(delivery_views(deliveries@) =~= Seq::<Routed>::empty());
                assert(string_views(dropped@) =~= Seq::<Seq<char>>::empty());
            },
        }
        let ghost du = delivery_views(deliveries@);
        let ghost xu = string_views(dropped@);
        match command {
            Some(c) => {
                if self.asset_channels.contains(c.target.as_str()) {
                    let Command { target, command, args } = c;
                    deliveries.push(Delivery { target, message: ActorMessage::Command(command, args) });
                    assert(delivery_views(deliveries@) =~= du + seq![
                        Routed::Command { target: m.command->0.target@, command: m.command->0.command@ },
                    ]);
                    assert(string_views(dropped@) =~= xu + Seq::<Seq<char>>::empty());
                } else {
                    let ghost t = c.target@;
                    dropped.push(c.target);
                    assert(string_views(dropped@) =~= xu + seq![t]);
                    assert(delivery_views(deliveries@) =~= du + Seq::<Routed>::empty());
                }
            },
            None => {
                assert(delivery_views(deliveries@) =~= du + Seq::<Routed>::empty());
                assert(string_views(dropped@) =~= xu + Seq::<Seq<char>>::empty());
            },
        }
        Routing { deliveries, dropped }
    }
}

} // verus!
