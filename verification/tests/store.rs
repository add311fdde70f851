//! The project store, the management operations and the history paging.

use fermentation_core::errors::StoreError;
use fermentation_core::history::HistoricSensorData;
use fermentation_core::history::filter_historic;
use fermentation_core::history::page_times;
use fermentation_core::project_store::Project;
use fermentation_core::project_store::Settings;
use fermentation_core::project_store::create_new_project;
use fermentation_core::project_store::delete_project;
use fermentation_core::project_store::end_project;
use fermentation_core::project_store::get_active_project;
use fermentation_core::project_store::get_project;
use fermentation_core::project_store::set_project_settings;
use fermentation_core::project_store::start_project;
use fermentation_core::project_store::update_project;
use fermentation_core::reading::SensorData;
use fermentation_core::routes::CreateRequest;
use fermentation_core::routes::PutRequest;
use fermentation_core::routes::create;
use fermentation_core::routes::delete;
use fermentation_core::routes::end;
use fermentation_core::routes::set_settings;
use fermentation_core::routes::start;
use fermentation_core::routes::update;

fn store_with(names: &[&str]) -> Vec<Project> {
    let mut projects: Vec<Project> = Vec::new();
    for (k, name) in names.iter().enumerate() {
        create_new_project(
            &mut projects,
            String::from(*name),
            String::from("about"),
            1000 + k as u64,
        )
        .unwrap();
    }
    projects
}

#[test]
fn creation_assigns_sequential_ids_and_default_settings() {
    let projects = store_with(&["first", "second"]);
    assert_eq!(projects.len(), 2);
    assert_eq!(projects[0].id, 1);
    assert_eq!(projects[1].id, 2);
    assert_eq!(projects[0].name, "first");
    assert_eq!(projects[0].description, "about");
    assert_eq!(projects[0].created_at, 1000);
    assert_eq!(projects[0].start_at, None);
    assert_eq!(projects[0].endend_at, None);
    assert_eq!(projects[0].settings, Settings { hum_tenths: 750, temp_tenths: 300 });
}

#[test]
fn update_replaces_only_the_given_fields() {
    let mut projects = store_with(&["first", "second"]);
    update_project(&mut projects, 2, Some(String::from("renamed")), None).unwrap();
    assert_eq!(projects[1].name, "renamed");
    assert_eq!(projects[1].description, "about");
    assert_eq!(projects[0].name, "first");
    let missing = update_project(&mut projects, 9, None, None);
    assert_eq!(missing, Err(StoreError::ProjectNotFound));
}

#[test]
fn delete_removes_the_record() {
    let mut projects = store_with(&["first", "second"]);
    delete_project(&mut projects, 1).unwrap();
    assert_eq!(projects.len(), 1);
    assert_eq!(projects[0].id, 2);
    assert_eq!(delete_project(&mut projects, 1), Err(StoreError::ProjectNotFound));
}

#[test]
fn start_and_end_stamp_the_record() {
    let mut projects = store_with(&["only"]);
    start_project(&mut projects, 1, 5000).unwrap();
    assert_eq!(projects[0].start_at, Some(5000));
    let active = get_active_project(&projects).unwrap();
    assert_eq!(active.id, 1);
    end_project(&mut projects, 1, 6000).unwrap();
    assert_eq!(projects[0].endend_at, Some(6000));
    assert_eq!(get_active_project(&projects), Err(StoreError::ProjectNotFound));
}

#[test]
fn a_second_project_cannot_start_while_one_runs() {
    let mut projects = store_with(&["first", "second"]);
    start_project(&mut projects, 1, 5000).unwrap();
    let blocked = start_project(&mut projects, 2, 5100);
    assert_eq!(blocked, Err(StoreError::AnotherProjectRunning));
    assert_eq!(projects[1].start_at, None);
    // Restarting the running project itself is allowed.
    start_project(&mut projects, 1, 5200).unwrap();
    assert_eq!(projects[0].start_at, Some(5200));
    // After it ends, the second may start.
    end_project(&mut projects, 1, 6000).unwrap();
    start_project(&mut projects, 2, 7000).unwrap();
    assert_eq!(projects[1].start_at, Some(7000));
}

#[test]
fn missing_project_cannot_start_or_end() {
    let mut projects = store_with(&["only"]);
    assert_eq!(start_project(&mut projects, 9, 5000), Err(StoreError::ProjectNotFound));
    assert_eq!(end_project(&mut projects, 9, 5000), Err(StoreError::ProjectNotFound));
}

#[test]
fn settings_can_be_replaced() {
    let mut projects = store_with(&["only"]);
    set_project_settings(&mut projects, 1, Settings { hum_tenths: 600, temp_tenths: 250 })
        .unwrap();
    assert_eq!(projects[0].settings, Settings { hum_tenths: 600, temp_tenths: 250 });
    assert_eq!(
        set_project_settings(&mut projects, 9, Settings { hum_tenths: 0, temp_tenths: 0 }),
        Err(StoreError::ProjectNotFound)
    );
}

#[test]
fn get_project_hands_out_a_copy() {
    let projects = store_with(&["first", "second"]);
    let p = get_project(&projects, 2).unwrap();
    assert_eq!(p, projects[1]);
    assert_eq!(get_project(&projects, 9), Err(StoreError::ProjectNotFound));
}

#[test]
fn route_operations_mirror_the_store() {
    let mut projects: Vec<Project> = Vec::new();
    create(
        &mut projects,
        CreateRequest { name: String::from("batch"), description: String::from("rye") },
        4200,
    );
    assert_eq!(projects.len(), 1);
    assert_eq!(projects[0].name, "batch");
    assert_eq!(projects[0].created_at, 4200);

    let updated = update(
        &mut projects,
        1,
        PutRequest { name: None, description: Some(String::from("spelt")) },
    );
    let updated = updated.unwrap();
    assert_eq!(updated.name, "batch");
    assert_eq!(updated.description, "spelt");
    assert_eq!(updated, projects[0]);

    let missing = update(&mut projects, 9, PutRequest { name: None, description: None });
    assert!(missing.is_none());

    start(&mut projects, 1, 5000);
    assert_eq!(projects[0].start_at, Some(5000));
    end(&mut projects, 1, 6000);
    assert_eq!(projects[0].endend_at, Some(6000));
    set_settings(&mut projects, 1, Settings { hum_tenths: 500, temp_tenths: 200 });
    assert_eq!(projects[0].settings, Settings { hum_tenths: 500, temp_tenths: 200 });
    delete(&mut projects, 1);
    assert!(projects.is_empty());
    delete(&mut projects, 1);
    assert!(projects.is_empty());
}

fn datapoint(time: u64) -> HistoricSensorData {
    HistoricSensorData { time, data: SensorData { temp_tenths: 250, hum_tenths: 700 } }
}

#[test]
fn range_filter_keeps_exactly_the_closed_range() {
    let data = vec![datapoint(10), datapoint(20), datapoint(30), datapoint(40)];
    let r = filter_historic(&data, 20, 30);
    assert_eq!(r, vec![datapoint(20), datapoint(30)]);
    let all = filter_historic(&data, 0, 100);
    assert_eq!(all.len(), 4);
    let none = filter_historic(&data, 50, 100);
    assert!(none.is_empty());
}

#[test]
fn page_plan_walks_day_by_day_to_the_end() {
    // From the epoch to just into the third day.
    let pages = page_times(0, 2 * 86400 + 100).unwrap();
    assert_eq!(pages, vec![0, 86400, 172800]);
    // A range inside one day still reads a second, final page.
    let pages = page_times(100, 200).unwrap();
    assert_eq!(pages, vec![100, 86500]);
}

#[test]
fn page_plan_fails_outside_the_calendar() {
    // Ten trillion seconds lies far beyond the representable calendar.
    assert!(page_times(0, 10_000_000_000_000).is_none());
}
