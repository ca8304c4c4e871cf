pub mod account_replicator;
pub mod accounts;
pub mod broker;
pub mod proxy;
pub mod replay;
pub mod store;
pub mod transactions;
pub mod upstream;
