use led_printer::lifecycle::{Command, TaskLifecycle, TaskSlot};

#[test]
fn new_controller_has_no_task() {
    let c = TaskLifecycle::new(75);
    assert_eq!(c.slot, TaskSlot::NoTask);
    assert_eq!(c.ms_per_pixel, 75);
}

#[test]
fn first_display_only_spawns() {
    let mut c = TaskLifecycle::new(0);
    assert_eq!(c.display(), vec![Command::SetRunning, Command::SpawnTask]);
    assert_eq!(c.slot, TaskSlot::TaskRunning);
    assert_eq!(c.ms_per_pixel, 0);
}

#[test]
fn second_display_joins_first() {
    let mut c = TaskLifecycle::new(75);
    c.display();
    assert_eq!(
        c.display(),
        vec![Command::SignalStop, Command::JoinPrevious, Command::SetRunning, Command::SpawnTask]
    );
    assert_eq!(c.slot, TaskSlot::TaskRunning);
}

#[test]
fn shutdown_stops_and_joins() {
    let mut c = TaskLifecycle::new(75);
    assert_eq!(c.shutdown(), vec![]);
    c.display();
    assert_eq!(c.shutdown(), vec![Command::SignalStop, Command::JoinPrevious]);
    assert_eq!(c.slot, TaskSlot::NoTask);
}

// Carries out plans on a simulated controller: a flag, the tasks that are
// live, and the text the screen last showed.
#[test]
fn display_a_then_b_shows_b_and_never_overlaps() {
    let mut c = TaskLifecycle::new(75);
    let mut flag = false;
    let mut live: Vec<&str> = Vec::new();
    let mut shown: Vec<&str> = Vec::new();
    for text in ["A", "B"] {
        for command in c.display() {
            match command {
                Command::SignalStop => flag = false,
                Command::JoinPrevious => {
                    assert!(!flag);
                    assert_eq!(live.len(), 1);
                    live.pop();
                }
                Command::SetRunning => flag = true,
                Command::SpawnTask => {
                    assert!(flag);
                    assert!(live.is_empty());
                    live.push(text);
                }
            }
            assert!(live.len() <= 1);
            if let Some(t) = live.first() {
                shown.push(t);
            }
        }
    }
    assert_eq!(live, vec!["B"]);
    assert_eq!(shown.last(), Some(&"B"));
    let first_b = shown.iter().position(|t| *t == "B").unwrap();
    assert!(shown[first_b..].iter().all(|t| *t == "B"));
}
