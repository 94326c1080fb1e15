//! Runtime host for digital twins of IoT assets: a verified state-machine
//! framework for actor models, queries over asset administration shells, and
//! the routing tables that connect bus traffic to the twins.

mod json;
pub mod search;
pub mod aas;
pub mod actor;
pub mod laws;
pub mod models;
pub mod tables;
pub mod runner;
pub mod receiver;
pub mod manager;

pub use aas::{
    AssetAdministrationShell, Event, Operation, OperationVariable, Property, PropertyValue,
    ReferenceElement, Submodel, SubmodelCollection, SubmodelElement, ValueType,
};
pub use actor::{
    Actor, ActorFactory, Cmp, CommandRule, InputHandler, InputRule, Model, ParamDecl, ParamValue,
    StateDecl,
};
pub use manager::{find_duplicates, Error, Manager, ManagerMessage};
pub use models::{
    Charging, ChargingStation, ChargingStationFactory, Connected, Fault, Idle, LightBulb,
    LightBulbFactory, Off, On, StateBehavior,
};
pub use receiver::{
    Command, Delivery, NetworkMessage, NetworkOptions, NetworkReceiver, Routing, Update, WireMessage,
};
pub use runner::{ActorMessage, InitOutcome, ModelCatalog, TwinError, TwinRunner};
pub use tables::{Registry, Subscriptions};
