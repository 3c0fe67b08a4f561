use keysound::dispatch::{Command, Dispatcher, Outcome, Phase, Signal};
use keysound::event::{Event, KeyState, Playback};
use keysound::pack::SoundPack;
use keysound::table::SoundFileTable;

fn sound_pack(defines: Vec<(&str, Vec<u32>)>) -> SoundPack {
    let mut pack = SoundPack::new(
        "pack-1".to_string(),
        "Test pack".to_string(),
        "single".to_string(),
        false,
        "click.ogg".to_string(),
    );
    for (key, values) in defines {
        pack.define(key.to_string(), values);
    }
    pack
}

fn load(config: &str) -> SoundPack {
    let value: serde_json::Value = serde_json::from_str(config).expect("valid JSON");
    let text = |field: &str| value[field].as_str().expect("a string").to_string();
    let mut pack = SoundPack::new(
        text("id"),
        text("name"),
        text("key_define_type"),
        value["includes_numpad"].as_bool().expect("a boolean"),
        text("sound"),
    );
    for (key, numbers) in value["defines"].as_object().expect("an object") {
        let numbers = numbers
            .as_array()
            .expect("an array")
            .iter()
            .map(|n| u32::try_from(n.as_u64().expect("a number")).expect("a small number"))
            .collect();
        pack.define(key.clone(), numbers);
    }
    pack
}

fn down(key: &str) -> Event {
    Event::Keyboard { key: key.to_string(), state: KeyState::Pressed }
}

fn up(key: &str) -> Event {
    Event::Keyboard { key: key.to_string(), state: KeyState::Released }
}

fn play(file: &str, start_ms: u32, duration_ms: u32) -> Command {
    Command::Play(Playback { file: file.to_string(), start_ms, duration_ms })
}

#[test]
fn press_of_key_a_plays_click_from_100_for_250() {
    let pack = load(
        r#"{
            "id": "pack-1",
            "name": "Test pack",
            "key_define_type": "single",
            "includes_numpad": false,
            "sound": "click.ogg",
            "defines": {"KEY_A": [100, 250]}
        }"#,
    );
    assert_eq!(pack.sound(), "click.ogg");
    let mut dispatcher = Dispatcher::start(pack, "audio/pack");
    let command = dispatcher.step(Signal::Batch(vec![down("KEY_A")]));
    assert_eq!(command, play("audio/pack/click.ogg", 100, 250));
}

#[test]
fn press_of_key_with_three_numbers_plays_nothing() {
    let pack = load(
        r#"{
            "id": "pack-1",
            "name": "Test pack",
            "key_define_type": "single",
            "includes_numpad": false,
            "sound": "click.ogg",
            "defines": {"KEY_A": [100, 250, 999]}
        }"#,
    );
    assert_eq!(pack.values("KEY_A"), Some(&vec![100, 250, 999]));
    let mut dispatcher = Dispatcher::start(pack, "audio/pack");
    let command = dispatcher.step(Signal::Batch(vec![down("KEY_A")]));
    assert_eq!(command, Command::Poll);
    assert_eq!(dispatcher.phase(), Phase::Idle);
}

#[test]
fn press_of_unknown_key_plays_nothing() {
    let pack = sound_pack(vec![("KEY_A", vec![100, 250])]);
    let mut dispatcher = Dispatcher::start(pack, "audio/pack");
    let command = dispatcher.step(Signal::Batch(vec![down("KEY_B")]));
    assert_eq!(command, Command::Poll);
}

#[test]
fn new_loop_is_idle() {
    let dispatcher = Dispatcher::start(sound_pack(vec![("1", vec![1, 2])]), "audio");
    assert_eq!(dispatcher.phase(), Phase::Idle);
    assert_eq!(dispatcher.pending_len(), 0);
    assert_eq!(dispatcher.pack().sound(), "click.ogg");
    assert_eq!(dispatcher.pack().len(), 1);
    assert_eq!(dispatcher.table().default_path(), "audio/click.ogg");
    assert_eq!(dispatcher.table().get("1"), Some(&"audio/click.ogg".to_string()));
}

#[test]
fn loop_with_a_table_of_its_own() {
    let pack = sound_pack(vec![("1", vec![1, 2]), ("2", vec![3, 4])]);
    let table = SoundFileTable::new("fallback.ogg".to_string())
        .with_entry("2".to_string(), "two.ogg".to_string());
    let mut dispatcher = Dispatcher::new(pack, table);
    assert_eq!(dispatcher.phase(), Phase::Idle);
    let first = dispatcher.step(Signal::Batch(vec![down("1"), down("2")]));
    assert_eq!(first, play("fallback.ogg", 1, 2));
    let second = dispatcher.step(Signal::Played(Outcome::Finished));
    assert_eq!(second, play("two.ogg", 3, 4));
}

#[test]
fn batch_is_drained_in_order() {
    let pack = sound_pack(vec![("1", vec![10, 11]), ("2", vec![20, 21]), ("3", vec![30])]);
    let mut dispatcher = Dispatcher::start(pack, "audio");
    let batch = vec![
        Event::Pointer,
        down("1"),
        up("1"),
        down("3"),
        down("9"),
        down("2"),
        Event::Device,
        down("1"),
        up("2"),
    ];
    let first = dispatcher.step(Signal::Batch(batch));
    assert_eq!(first, play("audio/click.ogg", 10, 11));
    assert_eq!(dispatcher.phase(), Phase::Draining);
    assert_eq!(dispatcher.pending_len(), 7);
    let second = dispatcher.step(Signal::Played(Outcome::Finished));
    assert_eq!(second, play("audio/click.ogg", 20, 21));
    assert_eq!(dispatcher.pending_len(), 3);
    let third = dispatcher.step(Signal::Played(Outcome::Finished));
    assert_eq!(third, play("audio/click.ogg", 10, 11));
    assert_eq!(dispatcher.phase(), Phase::Draining);
    assert_eq!(dispatcher.pending_len(), 1);
    let last = dispatcher.step(Signal::Played(Outcome::Finished));
    assert_eq!(last, Command::Poll);
    assert_eq!(dispatcher.phase(), Phase::Idle);
    assert_eq!(dispatcher.pending_len(), 0);
}

#[test]
fn failed_playback_does_not_stop_the_next() {
    let pack = sound_pack(vec![("30", vec![0, 10]), ("31", vec![20, 30])]);
    let mut dispatcher = Dispatcher::start(pack, "no/such/folder");
    let first = dispatcher.step(Signal::Batch(vec![down("30"), down("31")]));
    assert_eq!(first, play("no/such/folder/click.ogg", 0, 10));
    let second = dispatcher.step(Signal::Played(Outcome::Failed));
    assert_eq!(second, play("no/such/folder/click.ogg", 20, 30));
    let third = dispatcher.step(Signal::Played(Outcome::Finished));
    assert_eq!(third, Command::Poll);
}

#[test]
fn outcome_of_a_playback_changes_nothing() {
    let mut runs = Vec::new();
    for outcome in [Outcome::Finished, Outcome::Failed] {
        let pack = sound_pack(vec![("1", vec![1, 2]), ("2", vec![3, 4])]);
        let mut dispatcher = Dispatcher::start(pack, "audio");
        let mut seen = Vec::new();
        let mut command =
            dispatcher.step(Signal::Batch(vec![down("1"), down("x"), down("2"), down("1")]));
        while command != Command::Poll {
            seen.push((command, dispatcher.phase(), dispatcher.pending_len()));
            command = dispatcher.step(Signal::Played(outcome));
        }
        seen.push((command, dispatcher.phase(), dispatcher.pending_len()));
        runs.push(seen);
    }
    assert_eq!(runs[0], runs[1]);
    assert_eq!(
        runs[0],
        vec![
            (play("audio/click.ogg", 1, 2), Phase::Draining, 3),
            (play("audio/click.ogg", 3, 4), Phase::Draining, 1),
            (play("audio/click.ogg", 1, 2), Phase::Draining, 0),
            (Command::Poll, Phase::Idle, 0),
        ]
    );
}

#[test]
fn every_playback_of_a_batch_is_commanded_though_all_fail() {
    let pack = sound_pack(vec![("1", vec![1, 1]), ("2", vec![2, 2]), ("3", vec![3, 3])]);
    let mut dispatcher = Dispatcher::start(pack, "audio");
    let batch = vec![down("3"), up("3"), down("2"), Event::Gesture, down("1"), down("4")];
    let mut starts = Vec::new();
    let mut command = dispatcher.step(Signal::Batch(batch));
    while let Command::Play(playback) = command {
        starts.push(playback.start_ms);
        command = dispatcher.step(Signal::Played(Outcome::Failed));
    }
    assert_eq!(starts, vec![3, 2, 1]);
}

#[test]
fn empty_batch_leaves_the_loop_idle() {
    let mut dispatcher = Dispatcher::start(sound_pack(vec![("1", vec![1, 2])]), "audio");
    let command = dispatcher.step(Signal::Batch(vec![]));
    assert_eq!(command, Command::Poll);
    assert_eq!(dispatcher.phase(), Phase::Idle);
}

#[test]
fn silent_batch_leaves_the_loop_idle() {
    let mut dispatcher = Dispatcher::start(sound_pack(vec![("1", vec![1, 2])]), "audio");
    let command =
        dispatcher.step(Signal::Batch(vec![up("1"), Event::Touch, down("2"), Event::Switch]));
    assert_eq!(command, Command::Poll);
    assert_eq!(dispatcher.phase(), Phase::Idle);
    assert_eq!(dispatcher.pending_len(), 0);
}

#[test]
fn report_without_a_playback_polls() {
    let mut dispatcher = Dispatcher::start(sound_pack(vec![("1", vec![1, 2])]), "audio");
    assert_eq!(dispatcher.step(Signal::Played(Outcome::Finished)), Command::Poll);
    assert_eq!(dispatcher.step(Signal::Played(Outcome::Failed)), Command::Poll);
    assert_eq!(dispatcher.phase(), Phase::Idle);
}

#[test]
fn batch_that_arrives_while_draining_waits_behind() {
    let pack = sound_pack(vec![("1", vec![1, 1]), ("2", vec![2, 2]), ("3", vec![3, 3])]);
    let mut dispatcher = Dispatcher::start(pack, "audio");
    let first = dispatcher.step(Signal::Batch(vec![down("1"), down("2")]));
    assert_eq!(first, play("audio/click.ogg", 1, 1));
    let second = dispatcher.step(Signal::Batch(vec![down("3")]));
    assert_eq!(second, play("audio/click.ogg", 2, 2));
    let third = dispatcher.step(Signal::Played(Outcome::Finished));
    assert_eq!(third, play("audio/click.ogg", 3, 3));
    assert_eq!(dispatcher.step(Signal::Played(Outcome::Finished)), Command::Poll);
}

#[test]
fn loop_goes_on_after_it_was_idle() {
    let pack = sound_pack(vec![("1", vec![1, 1])]);
    let mut dispatcher = Dispatcher::start(pack, "audio");
    for _ in 0..3 {
        let command = dispatcher.step(Signal::Batch(vec![down("1")]));
        assert_eq!(command, play("audio/click.ogg", 1, 1));
        assert_eq!(dispatcher.phase(), Phase::Draining);
        assert_eq!(dispatcher.step(Signal::Played(Outcome::Failed)), Command::Poll);
        assert_eq!(dispatcher.phase(), Phase::Idle);
    }
}

#[test]
fn commands_follow_the_events_that_ask_for_playback() {
    let keys = ["1", "2", "3", "4", "5"];
    let mut seed: u32 = 12345;
    let mut next = |bound: u32| {
        seed = seed.wrapping_mul(1_103_515_245).wrapping_add(12_345);
        (seed >> 16) % bound
    };
    for _ in 0..50 {
        let pack = sound_pack(vec![
            ("1", vec![10, 1]),
            ("2", vec![20, 2]),
            ("3", vec![30]),
            ("4", vec![40, 4, 44]),
        ]);
        let mut dispatcher = Dispatcher::start(pack, "audio");
        let mut batch = Vec::new();
        let mut expected = Vec::new();
        for _ in 0..next(12) {
            let key = keys[next(5) as usize];
            match next(4) {
                0 => batch.push(up(key)),
                1 => batch.push(Event::Pointer),
                _ => {
                    batch.push(down(key));
                    match key {
                        "1" => expected.push(play("audio/click.ogg", 10, 1)),
                        "2" => expected.push(play("audio/click.ogg", 20, 2)),
                        _ => {}
                    }
                }
            }
        }
        let mut commands = Vec::new();
        let mut command = dispatcher.step(Signal::Batch(batch));
        while command != Command::Poll {
            commands.push(command);
            let outcome = if next(2) == 0 { Outcome::Finished } else { Outcome::Failed };
            command = dispatcher.step(Signal::Played(outcome));
        }
        assert_eq!(commands, expected);
        assert_eq!(dispatcher.phase(), Phase::Idle);
        assert_eq!(dispatcher.pending_len(), 0);
    }
}
