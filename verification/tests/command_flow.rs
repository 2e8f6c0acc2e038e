use every_discord_bot::music::queue;
use every_discord_bot::music::{new_queue_manager, LoopMode, Song};

fn flow_song(n: u32) -> Song {
    Song {
        title: format!("Song {n}"),
        url: format!("https://youtube.com/watch?v=test{n}"),
        duration: Some(format!("{n}:00")),
        requester: "user".to_string(),
    }
}

#[test]
fn test_play_queue_skip_flow() {
    let mut qm = new_queue_manager();
    let gid: u64 = 1;

    queue::add_song(&mut qm, gid, flow_song(1));
    queue::add_song(&mut qm, gid, flow_song(2));
    queue::add_song(&mut qm, gid, flow_song(3));

    let current = queue::get_next_song(&mut qm, gid, false);
    assert_eq!(current.as_ref().unwrap().title, "Song 1");

    let np = queue::get_current(&qm, gid);
    assert_eq!(np.unwrap().title, "Song 1");

    let (cur, songs) = queue::get_queue_list(&qm, gid);
    assert_eq!(cur.unwrap().title, "Song 1");
    assert_eq!(songs.len(), 2);

    let next = queue::get_next_song(&mut qm, gid, true);
    assert_eq!(next.unwrap().title, "Song 2");

    let next = queue::get_next_song(&mut qm, gid, true);
    assert_eq!(next.unwrap().title, "Song 3");

    let next = queue::get_next_song(&mut qm, gid, true);
    assert!(next.is_none());
}

#[test]
fn test_loop_song_flow() {
    let mut qm = new_queue_manager();
    let gid: u64 = 2;

    queue::add_song(&mut qm, gid, flow_song(1));
    queue::add_song(&mut qm, gid, flow_song(2));

    let current = queue::get_next_song(&mut qm, gid, false);
    assert_eq!(current.unwrap().title, "Song 1");

    queue::set_loop_mode(&mut qm, gid, LoopMode::Song);

    let repeated = queue::get_next_song(&mut qm, gid, false);
    assert_eq!(repeated.unwrap().title, "Song 1");

    let next = queue::get_next_song(&mut qm, gid, true);
    assert_eq!(next.unwrap().title, "Song 2");
}

#[test]
fn test_loop_queue_flow() {
    let mut qm = new_queue_manager();
    let gid: u64 = 3;

    queue::add_song(&mut qm, gid, flow_song(1));
    queue::add_song(&mut qm, gid, flow_song(2));

    queue::set_loop_mode(&mut qm, gid, LoopMode::Queue);

    let s1 = queue::get_next_song(&mut qm, gid, false);
    assert_eq!(s1.unwrap().title, "Song 1");

    let s2 = queue::get_next_song(&mut qm, gid, false);
    assert_eq!(s2.unwrap().title, "Song 2");

    let s1_again = queue::get_next_song(&mut qm, gid, false);
    assert_eq!(s1_again.unwrap().title, "Song 1");
}

#[test]
fn test_shuffle_remove_flow() {
    let mut qm = new_queue_manager();
    let gid: u64 = 4;

    for i in 1..=5 {
        queue::add_song(&mut qm, gid, flow_song(i));
    }

    queue::get_next_song(&mut qm, gid, false);

    let count = queue::shuffle(&mut qm, gid);
    assert_eq!(count, 4);

    let removed = queue::remove_at(&mut qm, gid, 1);
    assert!(removed.is_some());

    let (_, songs) = queue::get_queue_list(&qm, gid);
    assert_eq!(songs.len(), 3);
}

#[test]
fn test_volume_flow() {
    let mut qm = new_queue_manager();
    let gid: u64 = 5;

    let vol = queue::get_volume(&qm, gid);
    assert!((f32::from(vol) / 100.0 - 0.5).abs() < f32::EPSILON);

    queue::set_volume(&mut qm, gid, 80);
    let vol = queue::get_volume(&qm, gid);
    assert!((f32::from(vol) / 100.0 - 0.8).abs() < f32::EPSILON);
}

#[test]
fn test_stop_clears_everything() {
    let mut qm = new_queue_manager();
    let gid: u64 = 6;

    queue::add_song(&mut qm, gid, flow_song(1));
    queue::add_song(&mut qm, gid, flow_song(2));
    queue::get_next_song(&mut qm, gid, false);

    queue::clear(&mut qm, gid);

    assert!(queue::is_empty(&qm, gid));
    assert!(queue::get_current(&qm, gid).is_none());
}

#[test]
fn test_multiple_guilds_isolated() {
    let mut qm = new_queue_manager();
    let g1: u64 = 100;
    let g2: u64 = 200;

    queue::add_song(&mut qm, g1, flow_song(1));
    queue::add_song(&mut qm, g2, flow_song(2));

    let s1 = queue::get_next_song(&mut qm, g1, false);
    assert_eq!(s1.unwrap().title, "Song 1");

    let s2 = queue::get_next_song(&mut qm, g2, false);
    assert_eq!(s2.unwrap().title, "Song 2");

    let (cur1, songs1) = queue::get_queue_list(&qm, g1);
    assert_eq!(cur1.unwrap().title, "Song 1");
    assert!(songs1.is_empty());

    let (cur2, songs2) = queue::get_queue_list(&qm, g2);
    assert_eq!(cur2.unwrap().title, "Song 2");
    assert!(songs2.is_empty());

    queue::clear(&mut qm, g1);
    assert!(queue::is_empty(&qm, g1));
    assert!(!queue::is_empty(&qm, g2));
}

#[test]
fn interleaved_guilds_match_their_own_sequences() {
    let titles = |qm: &every_discord_bot::music::QueueManager, g: u64| {
        let (current, pending) = queue::get_queue_list(qm, g);
        (
            current.map(|s| s.title),
            pending.into_iter().map(|s| s.title).collect::<Vec<_>>(),
            queue::get_loop_mode(qm, g),
            queue::get_volume(qm, g),
        )
    };

    let mut both = new_queue_manager();
    queue::add_song(&mut both, 1, flow_song(1));
    queue::add_song(&mut both, 2, flow_song(10));
    queue::set_loop_mode(&mut both, 2, LoopMode::Queue);
    queue::add_song(&mut both, 1, flow_song(2));
    queue::get_next_song(&mut both, 2, false);
    queue::set_volume(&mut both, 1, 70);
    queue::add_song(&mut both, 2, flow_song(11));
    queue::get_next_song(&mut both, 1, true);
    queue::get_next_song(&mut both, 2, false);
    queue::remove_at(&mut both, 1, 1);
    queue::clear(&mut both, 3);

    let mut only_one = new_queue_manager();
    queue::add_song(&mut only_one, 1, flow_song(1));
    queue::add_song(&mut only_one, 1, flow_song(2));
    queue::set_volume(&mut only_one, 1, 70);
    queue::get_next_song(&mut only_one, 1, true);
    queue::remove_at(&mut only_one, 1, 1);

    let mut only_two = new_queue_manager();
    queue::add_song(&mut only_two, 2, flow_song(10));
    queue::set_loop_mode(&mut only_two, 2, LoopMode::Queue);
    queue::get_next_song(&mut only_two, 2, false);
    queue::add_song(&mut only_two, 2, flow_song(11));
    queue::get_next_song(&mut only_two, 2, false);

    assert_eq!(titles(&both, 1), titles(&only_one, 1));
    assert_eq!(titles(&both, 2), titles(&only_two, 2));
    assert_eq!(
        titles(&both, 1),
        (Some("Song 1".to_string()), vec![], LoopMode::Off, 70)
    );
    assert_eq!(
        titles(&both, 2),
        (Some("Song 11".to_string()), vec!["Song 10".to_string()], LoopMode::Queue, 50)
    );
    assert!(!both.queues.contains_key(&3));
}
