use every_discord_bot::music::queue::{
    add_song, clear, get_current, get_loop_mode, get_next_song, get_queue_list, get_track_handle,
    get_volume, is_empty, remove_at, set_loop_mode, set_volume, shuffle,
};
use every_discord_bot::music::{new_queue_manager, GuildQueue, LoopMode, Song, TrackToken};

fn test_song(title: &str) -> Song {
    Song {
        title: title.to_string(),
        url: format!("https://example.com/{title}"),
        duration: Some("3:00".to_string()),
        requester: "tester".to_string(),
    }
}

const GUILD: u64 = 1;

#[test]
fn test_loop_mode_display() {
    assert_eq!(LoopMode::Off.to_string(), "끔");
    assert_eq!(LoopMode::Song.to_string(), "한 곡 반복");
    assert_eq!(LoopMode::Queue.to_string(), "전체 반복");
}

#[test]
fn test_guild_queue_default() {
    let q = GuildQueue::default();
    assert!(q.songs.is_empty());
    assert!(q.current_song.is_none());
    assert_eq!(q.loop_mode, LoopMode::Off);
    assert_eq!(q.volume, 50);
    assert!(q.track_handle.is_none());
}

#[test]
fn test_add_song_returns_position() {
    let mut manager = new_queue_manager();

    let pos1 = add_song(&mut manager, GUILD, test_song("Song A"));
    assert_eq!(pos1, 1);

    let pos2 = add_song(&mut manager, GUILD, test_song("Song B"));
    assert_eq!(pos2, 2);

    let pos3 = add_song(&mut manager, GUILD, test_song("Song C"));
    assert_eq!(pos3, 3);
}

#[test]
fn test_get_next_song_normal_mode() {
    let mut manager = new_queue_manager();
    add_song(&mut manager, GUILD, test_song("First"));
    add_song(&mut manager, GUILD, test_song("Second"));

    let next = get_next_song(&mut manager, GUILD, false);
    assert!(next.is_some());
    assert_eq!(next.unwrap().title, "First");

    let current = get_current(&manager, GUILD);
    assert!(current.is_some());
    assert_eq!(current.unwrap().title, "First");

    let (_, remaining) = get_queue_list(&manager, GUILD);
    assert_eq!(remaining.len(), 1);
    assert_eq!(remaining[0].title, "Second");
}

#[test]
fn test_get_next_song_loop_song_repeats_current() {
    let mut manager = new_queue_manager();
    add_song(&mut manager, GUILD, test_song("Looping"));
    add_song(&mut manager, GUILD, test_song("Next"));

    get_next_song(&mut manager, GUILD, false);

    set_loop_mode(&mut manager, GUILD, LoopMode::Song);

    let repeated = get_next_song(&mut manager, GUILD, false);
    assert!(repeated.is_some());
    assert_eq!(repeated.unwrap().title, "Looping");

    let (_, remaining) = get_queue_list(&manager, GUILD);
    assert_eq!(remaining.len(), 1);
    assert_eq!(remaining[0].title, "Next");
}

#[test]
fn test_get_next_song_loop_song_skipped_advances() {
    let mut manager = new_queue_manager();
    add_song(&mut manager, GUILD, test_song("First"));
    add_song(&mut manager, GUILD, test_song("Second"));

    get_next_song(&mut manager, GUILD, false);

    set_loop_mode(&mut manager, GUILD, LoopMode::Song);

    let next = get_next_song(&mut manager, GUILD, true);
    assert!(next.is_some());
    assert_eq!(next.unwrap().title, "Second");

    let current = get_current(&manager, GUILD);
    assert_eq!(current.unwrap().title, "Second");
}

#[test]
fn test_get_next_song_loop_queue_cycles() {
    let mut manager = new_queue_manager();
    add_song(&mut manager, GUILD, test_song("A"));
    add_song(&mut manager, GUILD, test_song("B"));
    add_song(&mut manager, GUILD, test_song("C"));

    get_next_song(&mut manager, GUILD, false);

    set_loop_mode(&mut manager, GUILD, LoopMode::Queue);

    let next = get_next_song(&mut manager, GUILD, false);
    assert!(next.is_some());
    assert_eq!(next.unwrap().title, "B");

    let (_, remaining) = get_queue_list(&manager, GUILD);
    assert_eq!(remaining.len(), 2);
    assert_eq!(remaining[0].title, "C");
    assert_eq!(remaining[1].title, "A");
}

#[test]
fn test_get_next_song_empty_queue_returns_none() {
    let mut manager = new_queue_manager();

    let next = get_next_song(&mut manager, GUILD, false);
    assert!(next.is_none());

    let current = get_current(&manager, GUILD);
    assert!(current.is_none());
}

#[test]
fn test_clear_empties_queue_and_current() {
    let mut manager = new_queue_manager();
    add_song(&mut manager, GUILD, test_song("Song 1"));
    add_song(&mut manager, GUILD, test_song("Song 2"));

    get_next_song(&mut manager, GUILD, false);

    clear(&mut manager, GUILD);

    let current = get_current(&manager, GUILD);
    assert!(current.is_none());

    let (cur, remaining) = get_queue_list(&manager, GUILD);
    assert!(cur.is_none());
    assert!(remaining.is_empty());

    assert!(is_empty(&manager, GUILD));
}

#[test]
fn test_shuffle_preserves_count() {
    let mut manager = new_queue_manager();
    let titles = ["Alpha", "Beta", "Gamma", "Delta", "Epsilon"];
    for title in &titles {
        add_song(&mut manager, GUILD, test_song(title));
    }

    let count = shuffle(&mut manager, GUILD);
    assert_eq!(count, titles.len());

    let (_, remaining) = get_queue_list(&manager, GUILD);
    assert_eq!(remaining.len(), titles.len());

    let mut shuffled_titles: Vec<String> = remaining.iter().map(|s| s.title.clone()).collect();
    shuffled_titles.sort();
    let mut expected_titles: Vec<String> = titles.iter().map(|s| s.to_string()).collect();
    expected_titles.sort();
    assert_eq!(shuffled_titles, expected_titles);
}

#[test]
fn test_remove_at_removes_correct_song() {
    let mut manager = new_queue_manager();
    add_song(&mut manager, GUILD, test_song("First"));
    add_song(&mut manager, GUILD, test_song("Second"));
    add_song(&mut manager, GUILD, test_song("Third"));

    let removed = remove_at(&mut manager, GUILD, 2);
    assert!(removed.is_some());
    assert_eq!(removed.unwrap().title, "Second");

    let (_, remaining) = get_queue_list(&manager, GUILD);
    assert_eq!(remaining.len(), 2);
    assert_eq!(remaining[0].title, "First");
    assert_eq!(remaining[1].title, "Third");
}

#[test]
fn test_remove_at_invalid_position_returns_none() {
    let mut manager = new_queue_manager();
    add_song(&mut manager, GUILD, test_song("Only"));

    let result = remove_at(&mut manager, GUILD, 0);
    assert!(result.is_none());

    let result = remove_at(&mut manager, GUILD, 5);
    assert!(result.is_none());

    let (_, remaining) = get_queue_list(&manager, GUILD);
    assert_eq!(remaining.len(), 1);
}

#[test]
fn test_set_volume_updates_volume() {
    let mut manager = new_queue_manager();

    set_volume(&mut manager, GUILD, 80);
    let vol = get_volume(&manager, GUILD);
    assert_eq!(vol, 80);
    assert!((f32::from(vol) / 100.0 - 0.8).abs() < f32::EPSILON);

    set_volume(&mut manager, GUILD, 25);
    let vol = get_volume(&manager, GUILD);
    assert_eq!(vol, 25);
    assert!((f32::from(vol) / 100.0 - 0.25).abs() < f32::EPSILON);
}

#[test]
fn test_get_volume_default_when_no_guild() {
    let manager = new_queue_manager();
    let vol = get_volume(&manager, GUILD);
    assert_eq!(vol, 50);
    assert!((f32::from(vol) / 100.0 - 0.5).abs() < f32::EPSILON);
}

#[test]
fn test_is_empty() {
    let mut manager = new_queue_manager();

    assert!(is_empty(&manager, GUILD));

    add_song(&mut manager, GUILD, test_song("A"));
    assert!(!is_empty(&manager, GUILD));

    get_next_song(&mut manager, GUILD, false);
    assert!(!is_empty(&manager, GUILD));

    clear(&mut manager, GUILD);
    assert!(is_empty(&manager, GUILD));
}

#[test]
fn test_set_and_get_loop_mode() {
    let mut manager = new_queue_manager();

    let mode = get_loop_mode(&manager, GUILD);
    assert_eq!(mode, LoopMode::Off);

    set_loop_mode(&mut manager, GUILD, LoopMode::Song);
    assert_eq!(get_loop_mode(&manager, GUILD), LoopMode::Song);

    set_loop_mode(&mut manager, GUILD, LoopMode::Queue);
    assert_eq!(get_loop_mode(&manager, GUILD), LoopMode::Queue);

    set_loop_mode(&mut manager, GUILD, LoopMode::Off);
    assert_eq!(get_loop_mode(&manager, GUILD), LoopMode::Off);
}

#[test]
fn fifo_order_with_trailing_none() {
    let mut manager = new_queue_manager();
    let titles = ["s1", "s2", "s3", "s4"];
    for title in &titles {
        add_song(&mut manager, GUILD, test_song(title));
    }
    for title in &titles {
        assert_eq!(get_next_song(&mut manager, GUILD, true).unwrap().title, *title);
    }
    assert!(get_next_song(&mut manager, GUILD, true).is_none());
    assert!(is_empty(&manager, GUILD));
}

#[test]
fn song_loop_repeats_until_skipped() {
    let mut manager = new_queue_manager();
    add_song(&mut manager, GUILD, test_song("X"));
    add_song(&mut manager, GUILD, test_song("Y"));
    get_next_song(&mut manager, GUILD, false);
    set_loop_mode(&mut manager, GUILD, LoopMode::Song);
    for _ in 0..7 {
        assert_eq!(get_next_song(&mut manager, GUILD, false).unwrap().title, "X");
        let (current, pending) = get_queue_list(&manager, GUILD);
        assert_eq!(current.unwrap().title, "X");
        assert_eq!(pending.len(), 1);
        assert_eq!(pending[0].title, "Y");
    }
    assert_eq!(get_next_song(&mut manager, GUILD, true).unwrap().title, "Y");
    assert!(get_next_song(&mut manager, GUILD, true).is_none());
}

#[test]
fn song_loop_without_current_returns_none() {
    let mut manager = new_queue_manager();
    add_song(&mut manager, GUILD, test_song("X"));
    set_loop_mode(&mut manager, GUILD, LoopMode::Song);
    assert!(get_next_song(&mut manager, GUILD, false).is_none());
    let (current, pending) = get_queue_list(&manager, GUILD);
    assert!(current.is_none());
    assert_eq!(pending.len(), 1);
}

#[test]
fn queue_loop_full_cycle() {
    let mut manager = new_queue_manager();
    add_song(&mut manager, GUILD, test_song("A"));
    add_song(&mut manager, GUILD, test_song("B"));
    add_song(&mut manager, GUILD, test_song("C"));
    get_next_song(&mut manager, GUILD, false);
    set_loop_mode(&mut manager, GUILD, LoopMode::Queue);

    let titles = |songs: &Vec<Song>| songs.iter().map(|s| s.title.clone()).collect::<Vec<_>>();

    assert_eq!(get_next_song(&mut manager, GUILD, false).unwrap().title, "B");
    assert_eq!(titles(&get_queue_list(&manager, GUILD).1), vec!["C", "A"]);

    assert_eq!(get_next_song(&mut manager, GUILD, false).unwrap().title, "C");
    assert_eq!(titles(&get_queue_list(&manager, GUILD).1), vec!["A", "B"]);

    assert_eq!(get_next_song(&mut manager, GUILD, false).unwrap().title, "A");
    assert_eq!(titles(&get_queue_list(&manager, GUILD).1), vec!["B", "C"]);
    assert_eq!(get_current(&manager, GUILD).unwrap().title, "A");
}

#[test]
fn queue_loop_single_song_returns_itself() {
    let mut manager = new_queue_manager();
    add_song(&mut manager, GUILD, test_song("A"));
    get_next_song(&mut manager, GUILD, false);
    set_loop_mode(&mut manager, GUILD, LoopMode::Queue);
    for _ in 0..3 {
        assert_eq!(get_next_song(&mut manager, GUILD, false).unwrap().title, "A");
        assert!(get_queue_list(&manager, GUILD).1.is_empty());
    }
}

#[test]
fn removal_out_of_range_changes_nothing() {
    let mut manager = new_queue_manager();
    for title in ["A", "B", "C"] {
        add_song(&mut manager, GUILD, test_song(title));
    }
    get_next_song(&mut manager, GUILD, false);
    let len = get_queue_list(&manager, GUILD).1.len();
    assert!(remove_at(&mut manager, GUILD, 0).is_none());
    assert!(remove_at(&mut manager, GUILD, len + 1).is_none());
    assert!(remove_at(&mut manager, GUILD, usize::MAX).is_none());
    let (current, pending) = get_queue_list(&manager, GUILD);
    assert_eq!(current.unwrap().title, "A");
    assert_eq!(pending.len(), 2);
    assert_eq!(pending[0].title, "B");
    assert_eq!(pending[1].title, "C");
    assert_eq!(remove_at(&mut manager, GUILD, len).unwrap().title, "C");
}

#[test]
fn removal_on_missing_guild_returns_none() {
    let mut manager = new_queue_manager();
    assert!(remove_at(&mut manager, GUILD, 1).is_none());
    assert!(is_empty(&manager, GUILD));
}

#[test]
fn shuffle_keeps_songs_and_current() {
    let mut manager = new_queue_manager();
    for n in 0..20 {
        add_song(&mut manager, GUILD, test_song(&format!("T{n}")));
    }
    add_song(&mut manager, GUILD, test_song("T3"));
    get_next_song(&mut manager, GUILD, false);
    let mut before: Vec<String> =
        get_queue_list(&manager, GUILD).1.iter().map(|s| s.title.clone()).collect();
    assert_eq!(shuffle(&mut manager, GUILD), 20);
    let (current, pending) = get_queue_list(&manager, GUILD);
    assert_eq!(current.unwrap().title, "T0");
    let mut after: Vec<String> = pending.iter().map(|s| s.title.clone()).collect();
    before.sort();
    after.sort();
    assert_eq!(before, after);
}

#[test]
fn shuffle_of_empty_queue_returns_zero() {
    let mut manager = new_queue_manager();
    assert_eq!(shuffle(&mut manager, GUILD), 0);
    assert!(is_empty(&manager, GUILD));
}

#[test]
fn idle_transition_from_empty_queue() {
    let mut manager = new_queue_manager();
    assert!(is_empty(&manager, GUILD));
    assert!(get_next_song(&mut manager, GUILD, false).is_none());
    assert!(get_current(&manager, GUILD).is_none());
    assert!(is_empty(&manager, GUILD));
    assert!(get_next_song(&mut manager, GUILD, true).is_none());
    assert!(is_empty(&manager, GUILD));
}

#[test]
fn skip_and_natural_end_in_either_order() {
    let run = |first_skipped: bool| {
        let mut manager = new_queue_manager();
        add_song(&mut manager, GUILD, test_song("A"));
        add_song(&mut manager, GUILD, test_song("B"));
        assert_eq!(get_next_song(&mut manager, GUILD, false).unwrap().title, "A");
        let first = get_next_song(&mut manager, GUILD, first_skipped);
        let second = get_next_song(&mut manager, GUILD, !first_skipped);
        let (current, pending) = get_queue_list(&manager, GUILD);
        (
            first.map(|s| s.title),
            second.map(|s| s.title),
            current.map(|s| s.title),
            pending.len(),
        )
    };
    let skip_first = run(true);
    let end_first = run(false);
    assert_eq!(skip_first, (Some("B".to_string()), None, None, 0));
    assert_eq!(end_first, skip_first);
}

#[test]
fn set_volume_returns_live_handle() {
    let mut manager = new_queue_manager();
    assert_eq!(set_volume(&mut manager, GUILD, 0), None);
    assert_eq!(get_volume(&manager, GUILD), 0);
    assert_eq!(set_volume(&mut manager, GUILD, 100), None);
    assert_eq!(get_volume(&manager, GUILD), 100);
    assert_eq!(get_track_handle(&manager, GUILD), None::<TrackToken>);
}

#[test]
fn clear_keeps_mode_and_volume_and_makes_no_entry() {
    let mut manager = new_queue_manager();
    clear(&mut manager, 9);
    assert!(manager.queues.is_empty());
    set_loop_mode(&mut manager, GUILD, LoopMode::Queue);
    set_volume(&mut manager, GUILD, 30);
    add_song(&mut manager, GUILD, test_song("A"));
    clear(&mut manager, GUILD);
    assert_eq!(get_loop_mode(&manager, GUILD), LoopMode::Queue);
    assert_eq!(get_volume(&manager, GUILD), 30);
    assert!(manager.queues.contains_key(&GUILD));
}

#[test]
fn reads_make_no_entry() {
    let manager = new_queue_manager();
    assert!(get_current(&manager, GUILD).is_none());
    assert!(get_queue_list(&manager, GUILD).1.is_empty());
    assert_eq!(get_loop_mode(&manager, GUILD), LoopMode::Off);
    assert!(manager.queues.is_empty());
}

#[test]
fn shuffle_changes_the_order() {
    let mut manager = new_queue_manager();
    let titles: Vec<String> = (0..50).map(|n| format!("T{n}")).collect();
    for title in &titles {
        add_song(&mut manager, GUILD, test_song(title));
    }
    let mut changed = false;
    for _ in 0..5 {
        assert_eq!(shuffle(&mut manager, GUILD), 50);
        let now: Vec<String> =
            get_queue_list(&manager, GUILD).1.into_iter().map(|s| s.title).collect();
        changed = changed || now != titles;
    }
    assert!(changed);
}
