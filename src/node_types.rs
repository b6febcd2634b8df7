//! Traits that fix, at build time, the family of types a node is assembled from.
use std::marker::PhantomData;
use vstd::prelude::*;

verus! {

/// The essential types of an ethereum-like node: its primitive types and the
/// types of the engine API that talks to the consensus layer.
///
/// Implementors are stateless: they only name types.
pub trait NodeTypes: Send + Sync + 'static {
    /// The node's primitive types (blocks, receipts, headers).
    type Primitives;
    /// The node's engine types, the shapes of consensus-layer requests.
    type Engine;
}

/// A builder of [`NodeTypes`]: each setter replaces one associated type.
#[derive(Default, Debug)]
pub struct AnyNodeTypes<P = (), E = ()>(pub PhantomData<P>, pub PhantomData<E>);

impl<P, E> AnyNodeTypes<P, E> {
    /// Sets the `Primitives` type, keeping the `Engine` type.
    pub fn primitives<T>(self) -> (r: AnyNodeTypes<T, E>)
        ensures
            r == AnyNodeTypes::<T, E>(PhantomData::<T>, PhantomData::<E>),
    {
        AnyNodeTypes::<T, E>(PhantomData::<T>, PhantomData::<E>)
    }

    /// Sets the `Engine` type, keeping the `Primitives` type.
    pub fn engine<T>(self) -> (r: AnyNodeTypes<P, T>)
        ensures
            r == AnyNodeTypes::<P, T>(PhantomData::<P>, PhantomData::<T>),
    {
        AnyNodeTypes::<P, T>(PhantomData::<P>, PhantomData::<T>)
    }
}

impl<P, E> NodeTypes for AnyNodeTypes<P, E> where
    P: Send + Sync + 'static,
    E: Send + Sync + 'static,
 {
    type Primitives = P;

    type Engine = E;
}

/// Adds the storage and provider types that a launch supplies to the node
/// types that a user configured.
#[derive(Debug)]
pub struct FullNodeTypesAdapter<Types, DB, Provider> {
    /// The user configured node types.
    pub types: PhantomData<Types>,
    /// The storage type of the node.
    pub db: PhantomData<DB>,
    /// The provider type of the node.
    pub provider: PhantomData<Provider>,
}

impl<Types, DB, Provider> FullNodeTypesAdapter<Types, DB, Provider> {
    /// Creates an adapter for the configured types.
    pub fn new() -> (r: Self)
        ensures
            r.types == PhantomData::<Types>,
            r.db == PhantomData::<DB>,
            r.provider == PhantomData::<Provider>,
    {
        Self { types: PhantomData, db: PhantomData, provider: PhantomData }
    }
}

impl<Types, DB, Provider> Default for FullNodeTypesAdapter<Types, DB, Provider> {
    fn default() -> (r: Self)
        ensures
            r.types == PhantomData::<Types>,
            r.db == PhantomData::<DB>,
            r.provider == PhantomData::<Provider>,
    {
        Self::new()
    }
}

impl<Types, DB, Provider> Clone for FullNodeTypesAdapter<Types, DB, Provider> {
    fn clone(&self) -> (r: Self)
        ensures
            r == *self,
    {
        Self { types: PhantomData, db: PhantomData, provider: PhantomData }
    }
}

impl<Types, DB, Provider> NodeTypes for FullNodeTypesAdapter<Types, DB, Provider> where
    Types: NodeTypes,
    DB: Send + Sync + 'static,
    Provider: Send + Sync + 'static,
 {
    type Primitives = Types::Primitives;

    type Engine = Types::Engine;
}

/// Node types with the stateful parts that a launch supplies: the storage
/// and the provider over it. Not meant to be configured by users.
pub trait FullNodeTypes: NodeTypes + 'static {
    /// The storage the node reads and writes.
    type DB;
    /// The provider the node reads through.
    type Provider;
}

impl<Types, DB, Provider> FullNodeTypes for FullNodeTypesAdapter<Types, DB, Provider> where
    Types: NodeTypes,
    DB: Send + Sync + 'static,
    Provider: Send + Sync + 'static,
 {
    type DB = DB;

    type Provider = Provider;
}

/// All types and component instances of a node.
pub trait FullNodeComponents: FullNodeTypes + 'static {
    /// The transaction pool.
    type Pool;
    /// The EVM configuration.
    type Evm;
    /// What executes blocks.
    type Executor;
    /// The handle to the network.
    type Network;
    /// The handle to the payload builder service.
    type PayloadBuilder;
    /// The task spawner.
    type Tasks;

    /// The transaction pool of the node.
    fn pool(&self) -> &Self::Pool;

    /// The node's EVM configuration.
    fn evm_config(&self) -> &Self::Evm;

    /// The node's block executor.
    fn block_executor(&self) -> &Self::Executor;

    /// The provider of the node.
    fn provider(&self) -> &Self::Provider;

    /// The handle to the network.
    fn network(&self) -> &Self::Network;

    /// The handle to the payload builder service.
    fn payload_builder(&self) -> &Self::PayloadBuilder;

    /// The task spawner.
    fn task_executor(&self) -> &Self::Tasks;
}

/// Optional extra capabilities attached to a node's component set `N`, such
/// as the API served over RPC. The unit type is the empty set of add-ons.
pub trait NodeAddOns<N: FullNodeComponents>: Send + Sync + 'static {
    /// The core `eth` namespace API type installed on the RPC server.
    type EthApi: Send;
}

impl<N: FullNodeComponents> NodeAddOns<N> for () {
    type EthApi = ();
}

/// Builds a value of the implementing type for a node's component set `N`
/// from the context that the build needs.
pub trait BuilderProvider<N: FullNodeComponents>: Send + Sized {
    /// Context required to build the type.
    type Ctx;

    /// Builds the value from its context.
    fn builder(ctx: Self::Ctx) -> Self;
}

impl<N: FullNodeComponents> BuilderProvider<N> for () {
    type Ctx = ();

    fn builder(ctx: ()) {
        noop_builder(ctx)
    }
}

/// The builder of the unit type: it needs nothing and does nothing.
pub fn noop_builder(_ctx: ()) {
}

} // verus!
