use yam::builder::AppStageBuilder;
use yam::settings::{AppFault, AppSettings, AppSettingsError};
use yam::stage::AppStage;

fn stage(name: &str, frequency: u32) -> AppStage {
    AppStageBuilder::new(String::from(name), frequency).build()
}

fn stages(names: &[&str]) -> Vec<AppStage> {
    names.iter().map(|name| stage(name, 60)).collect()
}

fn names(stages: &[AppStage]) -> Vec<String> {
    stages.iter().map(|stage| String::from(stage.name())).collect()
}

fn spare_names(settings: &AppSettings) -> Vec<String> {
    names(settings.spare_stage_iter())
}

fn record_names(settings: &AppSettings) -> Vec<String> {
    settings.busy_stage_iter().iter().map(|info| String::from(info.name())).collect()
}

#[test]
fn new_settings_record_the_busy_stages() {
    let busy = vec![stage("a", 10), stage("b", 20)];
    let settings = AppSettings::new(&busy);
    assert_eq!(record_names(&settings), vec!["a", "b"]);
    assert_eq!(settings.busy_stage("b").unwrap().frequency(), 20);
    assert_eq!(settings.busy_stage("a").unwrap().name(), "a");
    assert!(settings.busy_stage("c").is_none());
    assert!(settings.spare_stage_iter().is_empty());
    assert_eq!(settings.pending_count(), 0);
}

#[test]
fn lookups_tell_busy_from_spare() {
    let busy = stages(&["a", "b"]);
    let mut settings = AppSettings::new(&busy);
    settings.push_stage_to_rest(stage("s", 5)).unwrap();
    assert!(settings.is_in_busy("a"));
    assert!(!settings.is_in_busy("s"));
    assert!(settings.is_in_spare("s"));
    assert!(!settings.is_in_spare("a"));
    assert_eq!(settings.spare_stage("s").unwrap().frequency(), 5);
    assert!(settings.spare_stage("a").is_none());
    assert_eq!(settings.busy_stage_index("b").unwrap(), 1);
    assert!(matches!(
        settings.busy_stage_index("s"),
        Err(AppSettingsError::StageNotExistInBusy("s", None))
    ));
}

#[test]
fn push_before_puts_the_stage_right_before_the_anchor() {
    let mut busy = stages(&["a", "b", "c"]);
    let mut settings = AppSettings::new(&busy);
    settings.push_stage_to_work_before(stage("x", 1), "b").unwrap();
    assert_eq!(names(&busy), vec!["a", "b", "c"]);
    assert_eq!(settings.pending_count(), 1);
    assert_eq!(settings.apply(&mut busy), Ok(false));
    assert_eq!(names(&busy), vec!["a", "x", "b", "c"]);
    assert_eq!(record_names(&settings), vec!["a", "x", "b", "c"]);
    assert_eq!(settings.pending_count(), 0);
}

#[test]
fn push_before_the_first_stage() {
    let mut busy = stages(&["a", "b"]);
    let mut settings = AppSettings::new(&busy);
    settings.push_stage_to_work_before(stage("x", 1), "a").unwrap();
    assert_eq!(settings.apply(&mut busy), Ok(false));
    assert_eq!(names(&busy), vec!["x", "a", "b"]);
}

#[test]
fn push_after_puts_the_stage_right_behind_the_anchor() {
    let mut busy = stages(&["a", "b", "c"]);
    let mut settings = AppSettings::new(&busy);
    settings.push_stage_to_work_after(stage("x", 1), "b").unwrap();
    settings.push_stage_to_work_after(stage("y", 1), "c").unwrap();
    assert_eq!(settings.apply(&mut busy), Ok(false));
    assert_eq!(names(&busy), vec!["a", "b", "x", "c", "y"]);
}

#[test]
fn push_appends_the_stage() {
    let mut busy = stages(&["a"]);
    let mut settings = AppSettings::new(&busy);
    settings.push_stage_to_work(stage("x", 1)).unwrap();
    assert_eq!(settings.apply(&mut busy), Ok(false));
    assert_eq!(names(&busy), vec!["a", "x"]);
}

#[test]
fn commands_apply_in_the_order_they_were_queued() {
    let mut busy = stages(&["a"]);
    let mut settings = AppSettings::new(&busy);
    settings.push_stage_to_work(stage("x", 1)).unwrap();
    settings.push_stage_to_work_before(stage("y", 1), "a").unwrap();
    settings.make_busy_stage_rest("a").unwrap();
    assert_eq!(settings.pending_count(), 3);
    assert_eq!(settings.apply(&mut busy), Ok(false));
    assert_eq!(names(&busy), vec!["y", "x"]);
    assert_eq!(spare_names(&settings), vec!["a"]);
}

#[test]
fn a_name_in_the_busy_list_is_refused_and_the_stage_comes_back() {
    let busy = stages(&["a", "b"]);
    let mut settings = AppSettings::new(&busy);
    match settings.push_stage_to_work_before(stage("a", 7), "b") {
        Err(AppSettingsError::DuplicateNameInBusy(back)) => {
            assert_eq!(back.name(), "a");
            assert_eq!(back.frequency(), 7);
        }
        other => panic!("{:?}", other),
    }
    match settings.push_stage_to_work(stage("b", 8)) {
        Err(AppSettingsError::DuplicateNameInBusy(back)) => {
            assert_eq!(back.name(), "b");
            assert_eq!(back.frequency(), 8);
        }
        other => panic!("{:?}", other),
    }
    match settings.push_stage_to_work_after(stage("a", 9), "b") {
        Err(AppSettingsError::DuplicateNameInBusy(back)) => {
            assert_eq!(back.name(), "a");
            assert_eq!(back.frequency(), 9);
        }
        other => panic!("{:?}", other),
    }
    match settings.push_stage_to_rest(stage("a", 3)) {
        Err(AppSettingsError::DuplicateNameInBusy(back)) => {
            assert_eq!(back.name(), "a");
            assert_eq!(back.frequency(), 3);
        }
        other => panic!("{:?}", other),
    }
    assert_eq!(settings.pending_count(), 0);
    assert!(settings.spare_stage_iter().is_empty());
}

#[test]
fn a_name_in_the_spare_list_is_refused_and_the_stage_comes_back() {
    let busy = stages(&["a"]);
    let mut settings = AppSettings::new(&busy);
    settings.push_stage_to_rest(stage("s", 1)).unwrap();
    match settings.push_stage_to_work_before(stage("s", 7), "a") {
        Err(AppSettingsError::DuplicateNameInSpare(back)) => {
            assert_eq!(back.name(), "s");
            assert_eq!(back.frequency(), 7);
        }
        other => panic!("{:?}", other),
    }
    assert!(matches!(
        settings.push_stage_to_work(stage("s", 7)),
        Err(AppSettingsError::DuplicateNameInSpare(_))
    ));
    assert!(matches!(
        settings.push_stage_to_work_after(stage("s", 7), "a"),
        Err(AppSettingsError::DuplicateNameInSpare(_))
    ));
    assert!(matches!(
        settings.push_stage_to_rest(stage("s", 7)),
        Err(AppSettingsError::DuplicateNameInSpare(_))
    ));
    assert_eq!(settings.pending_count(), 0);
    assert_eq!(spare_names(&settings), vec!["s"]);
    assert_eq!(settings.spare_stage("s").unwrap().frequency(), 1);
}

#[test]
fn a_taken_name_is_reported_even_if_the_anchor_is_missing() {
    let busy = stages(&["a"]);
    let mut settings = AppSettings::new(&busy);
    assert!(matches!(
        settings.push_stage_to_work_before(stage("a", 1), "nowhere"),
        Err(AppSettingsError::DuplicateNameInBusy(_))
    ));
    assert!(matches!(
        settings.push_stage_to_work_after(stage("a", 1), "nowhere"),
        Err(AppSettingsError::DuplicateNameInBusy(_))
    ));
}

#[test]
fn a_missing_anchor_is_refused_and_the_stage_comes_back() {
    let busy = stages(&["a"]);
    let mut settings = AppSettings::new(&busy);
    settings.push_stage_to_rest(stage("s", 1)).unwrap();
    match settings.push_stage_to_work_before(stage("x", 7), "nowhere") {
        Err(AppSettingsError::StageNotExistInBusy(anchor, Some(back))) => {
            assert_eq!(anchor, "nowhere");
            assert_eq!(back.name(), "x");
            assert_eq!(back.frequency(), 7);
        }
        other => panic!("{:?}", other),
    }
    // A spare stage is no anchor.
    match settings.push_stage_to_work_after(stage("x", 7), "s") {
        Err(AppSettingsError::StageNotExistInBusy(anchor, Some(back))) => {
            assert_eq!(anchor, "s");
            assert_eq!(back.name(), "x");
        }
        other => panic!("{:?}", other),
    }
    assert_eq!(settings.pending_count(), 0);
}

#[test]
fn parking_waits_for_the_next_apply() {
    let mut busy = stages(&["a", "b", "c"]);
    let mut settings = AppSettings::new(&busy);
    settings.make_busy_stage_rest("b").unwrap();
    assert!(settings.is_in_busy("b"));
    assert!(!settings.is_in_spare("b"));
    assert_eq!(names(&busy), vec!["a", "b", "c"]);
    assert_eq!(settings.apply(&mut busy), Ok(false));
    assert_eq!(names(&busy), vec!["a", "c"]);
    assert_eq!(spare_names(&settings), vec!["b"]);
    assert!(!settings.is_in_busy("b"));
    assert!(settings.is_in_spare("b"));
}

#[test]
fn parking_a_stage_that_is_not_busy_is_refused() {
    let busy = stages(&["a"]);
    let mut settings = AppSettings::new(&busy);
    settings.push_stage_to_rest(stage("s", 1)).unwrap();
    assert!(matches!(
        settings.make_busy_stage_rest("s"),
        Err(AppSettingsError::StageNotExistInBusy("s", None))
    ));
    assert!(matches!(
        settings.make_busy_stage_rest("nowhere"),
        Err(AppSettingsError::StageNotExistInBusy("nowhere", None))
    ));
    assert_eq!(settings.pending_count(), 0);
}

#[test]
fn push_to_rest_parks_at_once() {
    let busy = stages(&["a"]);
    let mut settings = AppSettings::new(&busy);
    settings.push_stage_to_rest(stage("s", 1)).unwrap();
    settings.push_stage_to_rest(stage("t", 2)).unwrap();
    assert_eq!(spare_names(&settings), vec!["s", "t"]);
    assert_eq!(settings.pending_count(), 0);
}

#[test]
fn take_spare_stage_removes_it_at_once() {
    let busy = stages(&["a"]);
    let mut settings = AppSettings::new(&busy);
    settings.push_stage_to_rest(stage("s", 1)).unwrap();
    settings.push_stage_to_rest(stage("t", 2)).unwrap();
    settings.push_stage_to_rest(stage("u", 3)).unwrap();
    let taken = settings.take_spare_stage("t").unwrap();
    assert_eq!(taken.name(), "t");
    assert_eq!(taken.frequency(), 2);
    assert_eq!(spare_names(&settings), vec!["s", "u"]);
    assert!(settings.take_spare_stage("t").is_none());
    assert!(settings.take_spare_stage("a").is_none());
    assert_eq!(spare_names(&settings), vec!["s", "u"]);
}

#[test]
fn activating_a_spare_stage_takes_it_at_once_and_places_it_later() {
    let mut busy = stages(&["a", "b"]);
    let mut settings = AppSettings::new(&busy);
    settings.push_stage_to_rest(stage("s", 1)).unwrap();
    settings.push_stage_to_rest(stage("t", 2)).unwrap();
    settings.push_stage_to_rest(stage("u", 3)).unwrap();
    settings.make_spare_stage_work_before("s", "b").unwrap();
    settings.make_spare_stage_work_after("t", "b").unwrap();
    settings.make_spare_stage_work("u").unwrap();
    assert!(settings.spare_stage_iter().is_empty());
    assert_eq!(names(&busy), vec!["a", "b"]);
    assert_eq!(settings.pending_count(), 3);
    assert_eq!(settings.apply(&mut busy), Ok(false));
    assert_eq!(names(&busy), vec!["a", "s", "b", "t", "u"]);
    assert_eq!(busy[1].frequency(), 1);
    assert_eq!(busy[3].frequency(), 2);
    assert_eq!(busy[4].frequency(), 3);
}

#[test]
fn activating_a_stage_that_is_not_spare_is_refused() {
    let busy = stages(&["a"]);
    let mut settings = AppSettings::new(&busy);
    assert!(matches!(
        settings.make_spare_stage_work("a"),
        Err(AppSettingsError::StageNotExistInSpare("a", None))
    ));
    assert!(matches!(
        settings.make_spare_stage_work_before("x", "a"),
        Err(AppSettingsError::StageNotExistInSpare("x", None))
    ));
    assert!(matches!(
        settings.make_spare_stage_work_after("x", "a"),
        Err(AppSettingsError::StageNotExistInSpare("x", None))
    ));
    assert_eq!(settings.pending_count(), 0);
}

#[test]
fn activating_beside_a_missing_anchor_hands_the_stage_to_the_caller() {
    let busy = stages(&["a"]);
    let mut settings = AppSettings::new(&busy);
    settings.push_stage_to_rest(stage("s", 4)).unwrap();
    match settings.make_spare_stage_work_before("s", "nowhere") {
        Err(AppSettingsError::StageNotExistInBusy(anchor, Some(back))) => {
            assert_eq!(anchor, "nowhere");
            assert_eq!(back.name(), "s");
            assert_eq!(back.frequency(), 4);
        }
        other => panic!("{:?}", other),
    }
    assert!(settings.spare_stage_iter().is_empty());
    assert_eq!(settings.pending_count(), 0);
}

#[test]
fn frequency_of_a_spare_stage_changes_at_once() {
    let busy = stages(&["a"]);
    let mut settings = AppSettings::new(&busy);
    settings.push_stage_to_rest(stage("s", 4)).unwrap();
    settings.set_stage_frequency("s", 90).unwrap();
    assert_eq!(settings.spare_stage("s").unwrap().frequency(), 90);
    assert_eq!(settings.pending_count(), 0);
}

#[test]
fn frequency_of_a_busy_stage_changes_at_the_next_apply() {
    let mut busy = vec![stage("a", 10), stage("b", 20)];
    let mut settings = AppSettings::new(&busy);
    settings.set_stage_frequency("b", 90).unwrap();
    assert_eq!(busy[1].frequency(), 20);
    assert_eq!(settings.busy_stage("b").unwrap().frequency(), 20);
    assert_eq!(settings.pending_count(), 1);
    assert_eq!(settings.apply(&mut busy), Ok(false));
    assert_eq!(busy[0].frequency(), 10);
    assert_eq!(busy[1].frequency(), 90);
    assert_eq!(settings.busy_stage("b").unwrap().frequency(), 90);
    assert_eq!(names(&busy), vec!["a", "b"]);
}

#[test]
fn frequency_of_an_unknown_stage_is_refused() {
    let busy = stages(&["a"]);
    let mut settings = AppSettings::new(&busy);
    assert!(matches!(
        settings.set_stage_frequency("nowhere", 1),
        Err(AppSettingsError::StageNotExist("nowhere"))
    ));
    assert_eq!(settings.pending_count(), 0);
}

#[test]
fn spare_stages_can_be_changed_in_place() {
    let busy = stages(&["a"]);
    let mut settings = AppSettings::new(&busy);
    settings.push_stage_to_rest(stage("s", 4)).unwrap();
    settings.push_stage_to_rest(stage("t", 5)).unwrap();
    settings.spare_stage_mut("t").unwrap().set_frequency(50);
    assert!(settings.spare_stage_mut("a").is_none());
    assert_eq!(settings.spare_stage("s").unwrap().frequency(), 4);
    assert_eq!(settings.spare_stage("t").unwrap().frequency(), 50);
    for stage in settings.spare_stage_iter_mut().iter_mut() {
        let doubled = stage.frequency() * 2;
        stage.set_frequency(doubled);
    }
    assert_eq!(settings.spare_stage("s").unwrap().frequency(), 8);
    assert_eq!(settings.spare_stage("t").unwrap().frequency(), 100);
}

#[test]
fn quit_is_reported_by_the_batch_that_holds_it() {
    let mut busy = stages(&["a"]);
    let mut settings = AppSettings::new(&busy);
    assert_eq!(settings.apply(&mut busy), Ok(false));
    settings.quit();
    assert_eq!(settings.pending_count(), 1);
    assert_eq!(settings.apply(&mut busy), Ok(true));
    assert_eq!(settings.pending_count(), 0);
    assert_eq!(settings.apply(&mut busy), Ok(false));
}

#[test]
fn quit_does_not_cut_the_batch_short() {
    let mut busy = stages(&["a"]);
    let mut settings = AppSettings::new(&busy);
    settings.push_stage_to_work(stage("x", 1)).unwrap();
    settings.quit();
    settings.push_stage_to_work(stage("y", 1)).unwrap();
    assert_eq!(settings.apply(&mut busy), Ok(true));
    assert_eq!(names(&busy), vec!["a", "x", "y"]);
    assert_eq!(settings.pending_count(), 0);
}

#[test]
fn a_command_that_lost_its_target_stops_the_batch() {
    let mut busy = stages(&["a", "b"]);
    let mut settings = AppSettings::new(&busy);
    settings.make_busy_stage_rest("a").unwrap();
    settings.make_busy_stage_rest("a").unwrap();
    settings.make_busy_stage_rest("b").unwrap();
    assert_eq!(settings.apply(&mut busy), Err(AppFault::StaleCommand));
    assert_eq!(names(&busy), vec!["b"]);
    assert_eq!(spare_names(&settings), vec!["a"]);
    assert_eq!(record_names(&settings), vec!["b"]);
    assert_eq!(settings.pending_count(), 2);
}

#[test]
fn a_command_that_lost_its_anchor_stops_the_batch() {
    let mut busy = stages(&["a", "b"]);
    let mut settings = AppSettings::new(&busy);
    settings.make_busy_stage_rest("a").unwrap();
    settings.push_stage_to_work_before(stage("x", 1), "a").unwrap();
    assert_eq!(settings.apply(&mut busy), Err(AppFault::StaleCommand));
    assert_eq!(names(&busy), vec!["b"]);
    assert_eq!(settings.pending_count(), 1);
}

#[test]
fn a_name_queued_twice_stops_the_batch_at_the_second() {
    let mut busy = stages(&["a"]);
    let mut settings = AppSettings::new(&busy);
    settings.push_stage_to_work(stage("x", 1)).unwrap();
    settings.push_stage_to_work(stage("x", 2)).unwrap();
    assert_eq!(settings.apply(&mut busy), Err(AppFault::StaleCommand));
    assert_eq!(names(&busy), vec!["a", "x"]);
    assert_eq!(busy[1].frequency(), 1);
    assert_eq!(settings.pending_count(), 1);
}

#[test]
fn park_then_activate_gives_the_stage_back_unchanged() {
    let mut busy = vec![stage("a", 10), stage("x", 77), stage("b", 20)];
    let mut settings = AppSettings::new(&busy);
    settings.make_busy_stage_rest("x").unwrap();
    assert_eq!(settings.apply(&mut busy), Ok(false));
    assert_eq!(settings.spare_stage("x").unwrap().frequency(), 77);
    settings.make_spare_stage_work("x").unwrap();
    assert_eq!(settings.apply(&mut busy), Ok(false));
    assert_eq!(names(&busy), vec!["a", "b", "x"]);
    assert_eq!(busy[2].frequency(), 77);
    assert!(settings.spare_stage_iter().is_empty());
}

#[test]
fn record_follows_the_busy_list() {
    let mut busy = stages(&["a", "b"]);
    let mut settings = AppSettings::new(&busy);
    busy.swap(0, 1);
    busy[0].set_frequency(5);
    settings.record(&busy);
    assert_eq!(record_names(&settings), vec!["b", "a"]);
    assert_eq!(settings.busy_stage("b").unwrap().frequency(), 5);
    busy.pop();
    settings.record(&busy);
    assert_eq!(record_names(&settings), vec!["b"]);
}

#[test]
fn find_stage_gives_the_first_place_of_a_name() {
    let list = stages(&["a", "b", "a"]);
    assert_eq!(yam::settings::find_stage(&list, "a"), Some(0));
    assert_eq!(yam::settings::find_stage(&list, "b"), Some(1));
    assert_eq!(yam::settings::find_stage(&list, "c"), None);
    assert_eq!(yam::settings::find_stage(&list, ""), None);
}

#[test]
fn settings_and_errors_can_be_printed() {
    let busy = stages(&["a"]);
    let mut settings = AppSettings::new(&busy);
    settings.push_stage_to_rest(stage("s", 4)).unwrap();
    settings.quit();
    let text = format!("{:?}", settings);
    assert!(text.contains("busy_stages"));
    assert!(text.contains("AppQuit"));
    assert!(text.contains("name: \"s\""));
    let error = settings.push_stage_to_work(stage("a", 3)).unwrap_err();
    assert_eq!(
        format!("{:?}", error),
        "DuplicateNameInBusy(AppStage { name: \"a\", frequency: 3 })"
    );
}
