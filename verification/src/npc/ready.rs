//! The check that goes before a tick: whether the frame that the behaviour
//! is about to show exists.

use vstd::prelude::*;
use crate::bullet::BulletManager;
use crate::common::Direction;
use crate::npc::ai::{advance, NpcWorld};
use crate::npc::list::NPCList;
use crate::npc::tick::{
    furniture_ready,
    machines_ready,
    people_ready,
    ready,
    sand_ready,
    scenery_ready,
    Family,
};
use crate::npc::NPC;
use crate::player::Player;
use crate::rng::RNG;
use crate::shared_game_state::SharedGameState;

verus! {

impl NPC {
    fn sided(&self, side: usize) -> (r: usize)
        requires
            side <= 10,
        ensures
            r == crate::npc::ai::characters::sided_index(*self, side as int),
    {
        if self.direction == Direction::Left {
            self.anim_num as usize
        } else {
            self.anim_num as usize + side
        }
    }

    fn scenery_is_ready(&self) -> (r: bool)
        ensures
            forall|w: NpcWorld, players: [Player; 2], bullets: Seq<crate::bullet::Bullet>|
                w.npc == *self ==> r == #[trigger] scenery_ready(w, players, bullets),
    {
        proof {
            reveal(scenery_ready);
        }
        match self.npc_type {
            4 => {
                let mut rng = self.rng;
                let drawn_frame = #[verifier::truncate]
                (rng.range(0..4) as u16);
                let drawn_timer = #[verifier::truncate]
                (rng.range(0..3) as u16);
                let (frame, timer) = if self.action_num == 0 {
                    (drawn_frame, drawn_timer)
                } else {
                    (self.anim_num, self.anim_counter)
                };
                let shown = if timer.wrapping_add(1) > 4 {
                    frame.wrapping_add(1)
                } else {
                    frame
                };
                match self.direction {
                    Direction::Left | Direction::Right => (shown as usize) < 16,
                    Direction::Up => shown as usize + 8 < 16,
                    _ => true,
                }
            },
            14 => advance(self.anim_num, self.anim_counter, 1, 2, 0).0 < 3,
            15 => !(self.action_num == 2 && self.anim_counter == 0) || self.anim_num < 3,
            23 => self.anim_counter != 0 || self.anim_num < 8,
            _ => true,
        }
    }

    fn furniture_is_ready(&self) -> (r: bool)
        ensures
            forall|w: NpcWorld, players: [Player; 2], bullets: Seq<crate::bullet::Bullet>|
                w.npc == *self ==> r == #[trigger] furniture_ready(w, players, bullets),
    {
        proof {
            reveal(furniture_ready);
        }
        match self.npc_type {
            105 => self.anim_num < 2,
            278 => {
                let mut probe = *self;
                if probe.action_num <= 2 {
                    probe.little_family_idle();
                } else if probe.action_num == 10 || probe.action_num == 11 {
                    probe.little_family_walk();
                }
                let offset: usize = match self.event_num {
                    200 => 0,
                    210 => 2,
                    _ => 4,
                };
                probe.anim_num as usize + offset < 6
            },
            _ => true,
        }
    }

    fn people_is_ready(&self, players: &[Player; 2]) -> (r: bool)
        ensures
            forall|w: NpcWorld, bullets: Seq<crate::bullet::Bullet>|
                w.npc == *self ==> r == #[trigger] people_ready(w, *players, bullets),
    {
        proof {
            reveal(people_ready);
        }
        match self.npc_type {
            61 => {
                let mut probe = *self;
                probe.king_act();
                probe.sided(10) < 20
            },
            62 => !(self.action_num == 1 && self.anim_counter.wrapping_add(1) > 2)
                || self.anim_num.wrapping_add(1) <= 2,
            74 => {
                let mut probe = *self;
                probe.jack_act();
                probe.sided(6) < 12
            },
            117 => {
                let i = self.get_closest_player_idx(players);
                let mut probe = *self;
                probe.curly_act(players[i].x);
                probe.sided(10) < 20
            },
            151 => {
                let to = self.blink(100, 0, 16);
                let offset: usize = if self.direction == Direction::Left {
                    0
                } else {
                    2
                };
                to.2 as usize + offset < 4
            },
            _ => true,
        }
    }

    fn sand_is_ready(&self, players: &[Player; 2], bullet_manager: &BulletManager) -> (r: bool)
        ensures
            forall|w: NpcWorld|
                w.npc == *self ==> r == #[trigger] sand_ready(w, *players, bullet_manager@),
    {
        proof {
            reveal(sand_ready);
        }
        match self.npc_type {
            44 => {
                let mut probe = *self;
                probe.polish_act();
                let frame = if probe.action_num > 1 && probe.action_num <= 9 {
                    if probe.anim_num.wrapping_add(1) > 2 {
                        1
                    } else {
                        probe.anim_num.wrapping_add(1)
                    }
                } else {
                    probe.anim_num
                };
                let offset: usize = if probe.direction == Direction::Left {
                    0
                } else {
                    3
                };
                frame as usize + offset < 6
            },
            45 => {
                let state_after = if self.action_num == 0 {
                    2
                } else {
                    self.action_num
                };
                state_after == 1 || state_after == 2 || self.anim_num < 3
            },
            47 => {
                let frame = if self.action_num == 0 || (self.action_num == 5 && self.action_counter
                    > 99) {
                    0
                } else if self.action_num == 2 && self.anim_counter.wrapping_add(1) > 3 {
                    self.anim_num.wrapping_add(1)
                } else {
                    self.anim_num
                };
                frame < 5
            },
            118 => {
                let i = self.get_closest_player_idx(players);
                let threatened = bullet_manager.count_bullets_type_idx_all(6) > 0;
                let mut probe = *self;
                let _ = probe.curly_boss_act(players[i].x);
                if probe.action_num > 10 && probe.action_num < 30 && threatened {
                    true
                } else {
                    probe.sided(9) < 18
                }
            },
            121 => self.direction != Direction::Left || self.blink(120, 10, 8).2 < 3,
            122 => {
                let i = self.get_closest_player_idx(players);
                let mut probe = *self;
                probe.colon_enraged_act(&players[i]);
                if probe.action_num > 10 && probe.action_num < 20 && probe.life != 1000 {
                    let mut rng = probe.rng;
                    let frame = #[verifier::truncate]
                    (rng.range(6..7) as u16);
                    let offset: usize = if probe.direction == Direction::Left {
                        0
                    } else {
                        10
                    };
                    frame as usize + offset < 20
                } else {
                    probe.sided(10) < 20
                }
            },
            123 => self.direction != Direction::FacingPlayer,
            124 => {
                let frame = if self.action_num == 0 || self.action_num == 1 {
                    0
                } else if self.action_num == 10 {
                    1
                } else {
                    self.anim_num
                };
                frame < 2
            },
            _ => true,
        }
    }

    fn machines_is_ready(&self) -> (r: bool)
        ensures
            forall|w: NpcWorld, players: [Player; 2], bullets: Seq<crate::bullet::Bullet>|
                w.npc == *self ==> r == #[trigger] machines_ready(w, players, bullets),
    {
        proof {
            reveal(machines_ready);
        }
        match self.npc_type {
            85 => {
                let frame = if self.action_num == 0 {
                    0
                } else if self.action_num == 1 {
                    if self.anim_num.wrapping_add(1) > 2 {
                        1
                    } else {
                        self.anim_num.wrapping_add(1)
                    }
                } else {
                    self.anim_num
                };
                let offset: usize = if self.direction == Direction::Left {
                    0
                } else {
                    3
                };
                frame as usize + offset < 6
            },
            96 | 97 | 98 | 99 => {
                let to = if self.action_num == 0 || self.action_num == 1 {
                    (1, self.anim_counter)
                } else if self.action_num == 2 {
                    advance(self.anim_num, self.anim_counter, 0, 2, 0)
                } else {
                    (self.anim_num, self.anim_counter)
                };
                to.1 != 0 || to.0 < 3
            },
            114 => {
                let floor = self.flags.hit_bottom_wall;
                let frame = if self.action_num == 0 || self.action_num == 1 {
                    if floor {
                        self.anim_num
                    } else {
                        1
                    }
                } else if self.action_num == 10 {
                    if floor {
                        0
                    } else if self.anim_counter.wrapping_add(1) > 2 {
                        if self.anim_num.wrapping_add(1) > 2 {
                            2
                        } else {
                            self.anim_num.wrapping_add(1)
                        }
                    } else {
                        self.anim_num
                    }
                } else {
                    self.anim_num
                };
                frame < 3
            },
            199 => {
                let mut rng = self.rng;
                let drawn = #[verifier::truncate]
                (rng.range(0..2) as u16);
                if self.anim_counter.wrapping_add(1) == 1 {
                    (if self.action_num == 0 {
                        drawn
                    } else {
                        self.anim_num
                    }) < 5
                } else {
                    true
                }
            },
            _ => true,
        }
    }

    /// Whether the entity can be ticked: see `ready`.
    pub fn is_ready(
        &self,
        state: &SharedGameState,
        players: &[Player; 2],
        npc_list: &NPCList,
        bullet_manager: &BulletManager,
    ) -> (r: bool)
        ensures
            r == ready(
                NpcWorld { npc: *self, state: state@, npcs: npc_list@ },
                *players,
                bullet_manager@,
            ),
    {
        let ghost w = NpcWorld { npc: *self, state: state@, npcs: npc_list@ };
        match crate::npc::tick::family(self.npc_type) {
            Family::Scenery => {
                let r = self.scenery_is_ready();
                assert(r == scenery_ready(w, *players, bullet_manager@));
                r
            },
            Family::Furniture => {
                let r = self.furniture_is_ready();
                assert(r == furniture_ready(w, *players, bullet_manager@));
                r
            },
            Family::People => {
                let r = self.people_is_ready(players);
                assert(r == people_ready(w, *players, bullet_manager@));
                r
            },
            Family::Sand => {
                let r = self.sand_is_ready(players, bullet_manager);
                assert(r == sand_ready(w, *players, bullet_manager@));
                r
            },
            Family::Machines => {
                let r = self.machines_is_ready();
                assert(r == machines_ready(w, *players, bullet_manager@));
                r
            },
            Family::Unknown => true,
        }
    }
}

} // verus!
