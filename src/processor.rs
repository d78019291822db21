//! Applies events received from the server to the bot's state.
use vstd::prelude::*;
use crate::geometry::{BlockLocation, Location};
use crate::physics::Physics;
use crate::world::{Block, World};

verus! {

/// The message a bot sends when it dies.
pub const DEATH_MESSAGE: &'static str = "I died... oof... well I guess I should respawn";

/// A message the bot sends to the server.
pub ghost enum Outbound {
    Respawn,
    Chat(Seq<char>),
}

/// What the bot can send back to the server.
pub trait InterfaceOut {
    fn respawn(&mut self);

    fn send_chat(&mut self, message: &str);
}

/// The dimension the bot is in.
#[derive(Clone, Copy, Debug, PartialEq, Eq, Structural)]
pub enum Dimension {
    Nether,
    Overworld,
    End,
}

/// State owned by one bot.
pub struct LocalState {
    pub physics: Physics,
    /// Health in fixed-point units.
    pub health: i128,
    pub food: u8,
    pub dimension: Dimension,
    pub disconnected: bool,
}

impl LocalState {
    pub open spec fn wf(&self) -> bool {
        self.physics.wf()
    }
}

/// State shared by the bots of one world.
pub struct GlobalState {
    pub world_blocks: World,
}

impl GlobalState {
    pub open spec fn wf(&self) -> bool {
        self.world_blocks.wf()
    }
}

/// Routes incoming events to the bot's own state, the shared world and the
/// outbound channel.
pub struct SimpleInterfaceIn<'a, I: InterfaceOut> {
    global: &'a mut GlobalState,
    local: &'a mut LocalState,
    out: &'a mut I,
    /// The messages handed to `out`, in order.
    sent: Ghost<Seq<Outbound>>,
}

impl<'a, I: InterfaceOut> SimpleInterfaceIn<'a, I> {
    pub closed spec fn spec_local(&self) -> LocalState {
        *self.local
    }

    pub closed spec fn spec_global(&self) -> GlobalState {
        *self.global
    }

    /// The messages handed to the outbound channel so far, in order.
    pub closed spec fn spec_sent(&self) -> Seq<Outbound> {
        self.sent@
    }

    pub fn new(local: &'a mut LocalState, global: &'a mut GlobalState, out: &'a mut I) -> (r: SimpleInterfaceIn<'a, I>)
        ensures
            r.spec_local() == *old(local),
            r.spec_global() == *old(global),
            r.spec_sent() == Seq::<Outbound>::empty(),
    {
        SimpleInterfaceIn { local, global, out, sent: Ghost(Seq::empty()) }
    }

    /// The bot's state as events have left it.
    pub fn local(&self) -> (r: &LocalState)
        ensures
            *r == self.spec_local(),
    {
        &*self.local
    }

    /// The shared state as events have left it.
    pub fn global(&self) -> (r: &GlobalState)
        ensures
            *r == self.spec_global(),
    {
        &*self.global
    }

    /// The server moved the bot: teleport there, at rest.
    pub fn on_move(&mut self, location: Location)
        requires
            old(self).spec_local().wf(),
            location.wf(),
        ensures
            final(self).spec_local().wf(),
            final(self).spec_local().physics.spec_location() == location,
            final(self).spec_local().physics.spec_velocity() == crate::geometry::Displacement::zero(),
            final(self).spec_local().physics.spec_direction() == old(self).spec_local().physics.spec_direction(),
            final(self).spec_local().physics.spec_horizontal() == old(self).spec_local().physics.spec_horizontal(),
            final(self).spec_local().physics.spec_prev() == old(self).spec_local().physics.spec_prev(),
            final(self).spec_local().physics.spec_pending() == old(self).spec_local().physics.spec_pending(),
            final(self).spec_local().physics.spec_in_water() == old(self).spec_local().physics.spec_in_water(),
            final(self).spec_local().health == old(self).spec_local().health,
            final(self).spec_local().food == old(self).spec_local().food,
            final(self).spec_local().dimension == old(self).spec_local().dimension,
            final(self).spec_local().disconnected == old(self).spec_local().disconnected,
            final(self).spec_global() == old(self).spec_global(),
            final(self).spec_sent() == old(self).spec_sent(),
    {
        self.local.physics.teleport(location);
    }

    pub fn on_update_health(&mut self, health: i128, food: u8)
        ensures
            final(self).spec_local() == (LocalState { health, food, ..old(self).spec_local() }),
            final(self).spec_global() == old(self).spec_global(),
            final(self).spec_sent() == old(self).spec_sent(),
    {
        self.local.health = health;
        self.local.food = food;
    }

    pub fn on_dimension_change(&mut self, dimension: Dimension)
        ensures
            final(self).spec_local() == (LocalState { dimension, ..old(self).spec_local() }),
            final(self).spec_global() == old(self).spec_global(),
            final(self).spec_sent() == old(self).spec_sent(),
    {
        self.local.dimension = dimension;
    }

    /// A voxel changed: record it in the shared world.
    pub fn on_block_change(&mut self, location: BlockLocation, block: Block)
        requires
            old(self).spec_global().wf(),
            block.wf(),
        ensures
            final(self).spec_global().wf(),
            forall|q: BlockLocation| #[trigger] final(self).spec_global().world_blocks.block_at(q) == if q == location {
                Some(block)
            } else {
                old(self).spec_global().world_blocks.block_at(q)
            },
            final(self).spec_local() == old(self).spec_local(),
            final(self).spec_sent() == old(self).spec_sent(),
    {
        self.global.world_blocks.set_block(location, block);
    }

    /// The bot died: ask to respawn, then say so.
    pub fn on_death(&mut self)
        ensures
            final(self).spec_sent() == old(self).spec_sent().push(Outbound::Respawn).push(
                Outbound::Chat(DEATH_MESSAGE@),
            ),
            final(self).spec_local() == old(self).spec_local(),
            final(self).spec_global() == old(self).spec_global(),
    {
        self.out.respawn();
        proof {
            self.sent@ = self.sent@.push(Outbound::Respawn);
        }
        self.out.send_chat(DEATH_MESSAGE);
        proof {
            self.sent@ = self.sent@.push(Outbound::Chat(DEATH_MESSAGE@));
        }
    }

    pub fn on_disconnect(&mut self, reason: &str)
        ensures
            final(self).spec_local() == (LocalState { disconnected: true, ..old(self).spec_local() }),
            final(self).spec_global() == old(self).spec_global(),
            final(self).spec_sent() == old(self).spec_sent(),
    {
        self.local.disconnected = true;
    }

    pub fn on_socket_close(&mut self)
        ensures
            final(self).spec_local() == old(self).spec_local(),
            final(self).spec_global() == old(self).spec_global(),
            final(self).spec_sent() == old(self).spec_sent(),
    {
    }
}

} // verus!
