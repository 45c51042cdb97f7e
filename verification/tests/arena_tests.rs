use doukutsu_rs::bullet::{Bullet, BulletManager};
use doukutsu_rs::common::{Condition, Direction, NPCFlag, Rect};
use doukutsu_rs::engine_constants::EngineConstants;
use doukutsu_rs::npc::list::{NPCList, SpawnError, NPC_LEN};
use doukutsu_rs::npc::{NPCTable, NPCTableEntry, NPC};
use doukutsu_rs::player::Player;
use doukutsu_rs::rng::Xoroshiro32PlusPlus;

fn entry() -> NPCTableEntry {
    NPCTableEntry {
        npc_flags: NPCFlag { shootable: true, ..NPCFlag::empty() },
        life: 12,
        size: 3,
        experience: 7,
        damage: 2,
        display_bounds: Rect::new(8, 8, 8, 8),
        hit_bounds: Rect::new(4, 5, 6, 7),
    }
}

fn players() -> [Player; 2] {
    let constants = EngineConstants::with_frames(Rect::new(0, 0, 0, 0));
    let mut a = Player::new(&constants);
    let mut b = Player::new(&constants);
    a.cond.alive = true;
    b.cond.alive = true;
    [a, b]
}

#[test]
fn blank_record_takes_the_table_entry() {
    let mut table = NPCTable::new();
    table.entries.push(entry());
    table.entries.push(entry());
    let npc = NPC::create(1, &table);
    assert_eq!(npc.npc_type, 1);
    assert_eq!(npc.life, 12);
    assert_eq!(npc.size, 3);
    assert_eq!(npc.exp, 7);
    assert_eq!(npc.damage, 2);
    assert!(npc.npc_flags.shootable);
    assert_eq!(npc.display_bounds.left, 8 * 0x200);
    assert_eq!(npc.hit_bounds.bottom, 7 * 0x200);
    assert!(!npc.cond.alive);
    assert_eq!((npc.x, npc.y, npc.action_num, npc.anim_counter), (0, 0, 0, 0));
    assert!(npc.direction == Direction::Left);
}

#[test]
fn blank_record_of_an_unknown_type() {
    let table = NPCTable::new();
    let npc = NPC::create(300, &table);
    assert_eq!(npc.npc_type, 300);
    assert_eq!(npc.life, 0);
    assert_eq!(npc.size, 2);
    assert!(!npc.npc_flags.shootable);
    assert_eq!(npc.display_bounds.right, 0);
    assert!(table.get_entry(0).is_none());
}

#[test]
fn arena_starts_empty() {
    let list = NPCList::new();
    assert_eq!(list.npcs.len(), NPC_LEN);
    assert!(list.npcs.iter().all(|n| !n.cond.alive));
    assert!(list.get_npc(511).is_some());
    assert!(list.get_npc(512).is_none());
}

#[test]
fn spawn_takes_the_lowest_free_slot_at_or_above_the_preferred_one() {
    let mut list = NPCList::new();
    let mut npc = NPC::empty();
    npc.npc_type = 4;
    npc.cond.alive = true;
    npc.x = 77;
    assert!(list.spawn(0x100, npc).is_ok());
    assert!(list.spawn(0x100, npc).is_ok());
    assert!(list.spawn(0, npc).is_ok());
    assert!(list.npcs[0x100].cond.alive);
    assert!(list.npcs[0x101].cond.alive);
    assert!(list.npcs[0].cond.alive);
    assert!(!list.npcs[1].cond.alive);
    assert_eq!(list.npcs[0x101].id, 0x101);
    assert_eq!(list.npcs[0x101].x, 77);
    list.npcs[0x100].cond.alive = false;
    assert!(list.spawn(0x100, npc).is_ok());
    assert!(list.npcs[0x100].cond.alive);
    assert!(!list.npcs[0x102].cond.alive);
}

#[test]
fn spawn_seeds_the_stream_of_the_record_by_its_slot() {
    let mut list = NPCList::new();
    let mut npc = NPC::empty();
    npc.npc_type = 4;
    npc.cond.alive = true;
    list.spawn(0x100, npc).unwrap();
    list.spawn(0x100, npc).unwrap();
    assert_eq!(list.npcs[0x100].rng.0, Xoroshiro32PlusPlus::new(3472624891).0);
    assert_eq!(list.npcs[0x101].rng.0, Xoroshiro32PlusPlus::new(3472623355).0);
    let mut other = NPC::empty();
    other.id = 5;
    other.npc_type = 73;
    other.flag_num = 7;
    other.event_num = 15;
    other.init_rng();
    assert_eq!(other.rng.0, Xoroshiro32PlusPlus::new(2768480627).0);
}

#[test]
fn spawn_fails_only_when_no_slot_is_free() {
    let mut list = NPCList::new();
    let mut npc = NPC::empty();
    npc.cond.alive = true;
    for _ in 0..NPC_LEN - 0x1fe {
        assert!(list.spawn(0x1fe, npc).is_ok());
    }
    let before: Vec<bool> = list.npcs.iter().map(|n| n.cond.alive).collect();
    assert!(list.spawn(0x1fe, npc) == Err(SpawnError::ArenaFull));
    assert!(list.spawn(0x200, npc) == Err(SpawnError::ArenaFull));
    assert!(list.spawn(0xffff, npc) == Err(SpawnError::ArenaFull));
    let after: Vec<bool> = list.npcs.iter().map(|n| n.cond.alive).collect();
    assert_eq!(before, after);
    assert!(list.spawn(0x1fd, npc).is_ok());
    list.spawn_if(false, 0, npc);
    assert!(!list.npcs[0].cond.alive);
    list.spawn_copies(3, 0, npc);
    assert!(list.npcs[2].cond.alive);
    assert!(!list.npcs[3].cond.alive);
}

#[test]
fn closest_player_prefers_the_strictly_nearer_one() {
    let mut npc = NPC::empty();
    npc.x = 100;
    npc.y = 100;
    let mut ps = players();
    ps[0].x = 120;
    ps[0].y = 100;
    ps[1].x = 100;
    ps[1].y = 110;
    assert_eq!(npc.get_closest_player_idx(&ps), 1);
    ps[1].y = 120;
    assert_eq!(npc.get_closest_player_idx(&ps), 0);
    ps[1].y = 119;
    assert_eq!(npc.get_closest_player_idx(&ps), 1);
    ps[0].x = i32::MAX;
    ps[0].y = i32::MAX;
    ps[1].x = i32::MIN;
    ps[1].y = i32::MIN;
    assert_eq!(npc.get_closest_player_idx(&ps), 0);
}

#[test]
fn closest_player_skips_dead_and_hidden_players() {
    let mut npc = NPC::empty();
    npc.x = 0;
    let mut ps = players();
    ps[0].x = 10;
    ps[1].x = 1000;
    ps[0].cond.hidden = true;
    assert_eq!(npc.get_closest_player_idx(&ps), 1);
    ps[1].cond.alive = false;
    assert_eq!(npc.get_closest_player_idx(&ps), 0);
    ps[0].cond.hidden = false;
    ps[0].cond.alive = false;
    ps[1].cond.alive = true;
    ps[1].cond.hidden = true;
    assert_eq!(npc.get_closest_player_idx(&ps), 0);
}

#[test]
fn bullets_are_counted_by_weapon() {
    let mut bullets = BulletManager::new();
    assert_eq!(bullets.count_bullets_type_idx_all(6), 0);
    for btype in [0, 1, 2, 4, 5, 20, 21, 22, 23] {
        bullets.bullets.push(Bullet {
            btype,
            x: 0,
            y: 0,
            vel_x: 0,
            vel_y: 0,
            life: 1,
            damage: 1,
            cond: Condition::empty(),
            direction: Direction::Left,
        });
    }
    assert_eq!(bullets.count_bullets_type_idx_all(0), 4);
    assert_eq!(bullets.count_bullets_type_idx_all(1), 1);
    assert_eq!(bullets.count_bullets_type_idx_all(6), 3);
    assert_eq!(bullets.count_bullets_type_idx_all(7), 1);
    assert_eq!(bullets.count_bullets_type_idx_all(8), 0);
}
