use bot_physics::fixed::SCALE;
use bot_physics::geometry::{BlockLocation, Displacement, Location};
use bot_physics::physics::Physics;
use bot_physics::processor::{Dimension, GlobalState, InterfaceOut, LocalState, SimpleInterfaceIn, DEATH_MESSAGE};
use bot_physics::world::{Block, SimpleType, World};

#[derive(Default)]
struct Recorder {
    respawns: usize,
    chat: Vec<String>,
}

impl InterfaceOut for Recorder {
    fn respawn(&mut self) {
        self.respawns += 1;
    }

    fn send_chat(&mut self, message: &str) {
        self.chat.push(message.to_string());
    }
}

fn local() -> LocalState {
    LocalState { physics: Physics::new(), health: 20 * SCALE, food: 20, dimension: Dimension::Overworld, disconnected: false }
}

#[test]
fn events_update_state() {
    let mut local = local();
    let mut global = GlobalState { world_blocks: World::new() };
    let mut out = Recorder::default();
    {
        let mut inp = SimpleInterfaceIn::new(&mut local, &mut global, &mut out);
        let target = Location::new(SCALE, 70 * SCALE, -SCALE);
        inp.on_move(target);
        assert_eq!(inp.local().physics.location(), target);
        assert_eq!(inp.local().physics.velocity(), Displacement::new(0, 0, 0));
        inp.on_update_health(15 * SCALE, 7);
        inp.on_dimension_change(Dimension::Nether);
        let b = BlockLocation { x: 1, y: 69, z: -1 };
        inp.on_block_change(b, Block { kind: SimpleType::Solid, slip: 600_000_000_000_000 });
        assert_eq!(inp.global().world_blocks.classify(b), Some(SimpleType::Solid));
        inp.on_death();
        inp.on_socket_close();
        inp.on_disconnect("bye");
    }
    assert_eq!(local.health, 15 * SCALE);
    assert_eq!(local.food, 7);
    assert_eq!(local.dimension, Dimension::Nether);
    assert!(local.disconnected);
    assert_eq!(out.respawns, 1);
    assert_eq!(out.chat, vec![DEATH_MESSAGE.to_string()]);
}
