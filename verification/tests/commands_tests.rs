use rit::{
    build_output_path, event_plan, filter_project_file, open_output, place_file_input,
    refresh_candidate, BuildParams, CommandError, DeployCommand, EventParams, ImportCommand,
    ImportPlan, Message, OpenCommand, OpenPlaceParams, Place, Remodel, RunCommand, Universe,
};

const GREEN: &str = "\u{1b}[32m";
const RESET: &str = "\u{1b}[0m";

fn deploy_config() -> rit::Config {
    rit::Config::new(
        "main".to_string(),
        vec![("main".to_string(), 123)],
        vec![(
            "main".to_string(),
            vec![("lobby".to_string(), 10), ("arena".to_string(), 20)],
        )],
        None,
        None,
    )
}

#[test]
fn build_paths_default_to_the_default_project() {
    let (project, output) = build_output_path(&BuildParams {
        project_name: None,
        output_name: None,
    });
    assert_eq!(project, "default");
    assert_eq!(output, "build/default.rbxl");

    let (project, output) = build_output_path(&BuildParams {
        project_name: Some("game".to_string()),
        output_name: None,
    });
    assert_eq!(project, "game");
    assert_eq!(output, "build/game.rbxl");

    let (project, output) = build_output_path(&BuildParams {
        project_name: Some("game".to_string()),
        output_name: Some("deploy/game".to_string()),
    });
    assert_eq!(project, "game");
    assert_eq!(output, "build/deploy/game.rbxl");
}

#[test]
fn run_command_hands_its_names_to_the_build() {
    let run = RunCommand {
        project_name: Some("game".to_string()),
        output_name: None,
    };
    let params = run.build_params();
    assert_eq!(params.project_name.as_deref(), Some("game"));
    assert_eq!(params.output_name, None);
}

#[test]
fn open_defaults_to_the_default_build_output() {
    let params = OpenPlaceParams { file_path: None };
    assert_eq!(place_file_input(&params), "build/default.rbxl");
    let command = OpenCommand {
        file_path: Some("maps/town.rbxl".to_string()),
    };
    assert_eq!(command.input_path(), "maps/town.rbxl");
}

#[test]
fn open_reports_the_file_it_runs() {
    assert_eq!(
        open_output("build/default.rbxl".to_string()),
        format!("{GREEN}Running{RESET} `build/default.rbxl`")
    );
}

#[test]
fn deploy_plans_every_place_in_order() {
    let command = DeployCommand {
        branch_name: None,
        message: Some("new season".to_string()),
        api_key: Some("key".to_string()),
    };
    let plan = command.plan(&deploy_config(), None).unwrap();
    assert_eq!(plan.auth, "key");
    assert_eq!(plan.universe_id, 123);
    assert_eq!(plan.steps.len(), 2);
    assert_eq!(plan.steps[0].place_name, "lobby");
    assert_eq!(plan.steps[0].place_id, 10);
    assert_eq!(plan.steps[0].output_name, "deploy/lobby");
    assert_eq!(plan.steps[1].place_name, "arena");
    assert_eq!(plan.steps[1].place_id, 20);
    assert_eq!(plan.steps[1].output_name, "deploy/arena");
    assert_eq!(plan.topic.as_deref(), Some("updates-main"));
}

#[test]
fn deploy_without_message_announces_nothing() {
    let command = DeployCommand {
        branch_name: None,
        message: None,
        api_key: Some("key".to_string()),
    };
    let plan = command.plan(&deploy_config(), None).unwrap();
    assert_eq!(plan.topic, None);
}

#[test]
fn deploy_of_branch_without_places_is_an_error() {
    let config = rit::Config::new(
        "staging".to_string(),
        vec![("staging".to_string(), 9)],
        vec![],
        None,
        None,
    );
    let command = DeployCommand {
        branch_name: Some("staging".to_string()),
        message: None,
        api_key: Some("key".to_string()),
    };
    let err = command.plan(&config, None).unwrap_err();
    match err {
        CommandError::Config(e) => {
            assert_eq!(e.message(), "No places found for branch staging");
        }
        other => panic!("wrong error kind: {other:?}"),
    }
}

#[test]
fn event_plan_carries_topic_and_message_through() {
    let params = EventParams {
        branch_name: None,
        topic: Some("updates-main".to_string()),
        message: Some("hello".to_string()),
        api_key: None,
    };
    let plan = event_plan(&params, &deploy_config(), Some("env-key".to_string())).unwrap();
    assert_eq!(plan.auth, "env-key");
    assert_eq!(plan.universe_id, 123);
    assert_eq!(plan.topic, "updates-main");
    assert_eq!(plan.message, "hello");
}

#[test]
fn import_prefers_a_named_map() {
    let command = ImportCommand {
        game_assets: true,
        game_maps: false,
        file_path: Some("town.rbxlx".to_string()),
        map_name: Some("town".to_string()),
        auth: None,
    };
    match command.plan() {
        ImportPlan::LocalMap {
            file_path,
            map_name,
        } => {
            assert_eq!(file_path, "town.rbxlx");
            assert_eq!(map_name, "town");
        }
        other => panic!("wrong plan: {other:?}"),
    }

    let command = ImportCommand {
        game_assets: false,
        game_maps: false,
        file_path: None,
        map_name: Some("town".to_string()),
        auth: None,
    };
    assert!(matches!(command.plan(), ImportPlan::NamedMap { .. }));
}

#[test]
fn import_falls_back_to_bulk_sets_or_nothing() {
    let command = ImportCommand {
        game_assets: true,
        game_maps: true,
        file_path: None,
        map_name: None,
        auth: None,
    };
    match command.plan() {
        ImportPlan::Bulk { assets, maps } => {
            assert!(assets);
            assert!(maps);
        }
        other => panic!("wrong plan: {other:?}"),
    }

    let command = ImportCommand {
        game_assets: false,
        game_maps: false,
        file_path: None,
        map_name: None,
        auth: None,
    };
    assert!(matches!(command.plan(), ImportPlan::Nothing));
}

#[test]
fn project_files_give_up_their_project_name() {
    assert_eq!(
        filter_project_file("maps/lobby.project.json").as_deref(),
        Some("lobby")
    );
    assert_eq!(
        filter_project_file("a\\b\\game.project.json").as_deref(),
        Some("game")
    );
    assert_eq!(
        filter_project_file("dir/sub/c.game.project.json").as_deref(),
        Some("c.game")
    );
    // No separator, nothing before it, or no name between separator and
    // suffix: no match.
    assert_eq!(filter_project_file("lobby.project.json"), None);
    assert_eq!(filter_project_file("/lobby.project.json"), None);
    assert_eq!(filter_project_file("maps/.project.json"), None);
    assert_eq!(filter_project_file("maps/lobby.json"), None);
    assert_eq!(filter_project_file(""), None);
}

#[test]
fn bulk_refresh_skips_the_default_project() {
    assert_eq!(
        refresh_candidate("maps/lobby.project.json").as_deref(),
        Some("lobby")
    );
    assert_eq!(refresh_candidate("maps/default.project.json"), None);
    assert_eq!(refresh_candidate("nonsense"), None);
}

#[test]
fn remote_handles_keep_their_fields() {
    let message = Message::new("key", 123);
    assert_eq!(message.api_key, "key");
    assert_eq!(message.universe_id, 123);
    let place = Place::new("key", 123);
    assert_eq!(place.api_key, "key");
    assert_eq!(place.universe_id, 123);
    let universe = Universe::new("key", 123);
    assert_eq!(universe.api_key, "key");
    assert_eq!(universe.universe_id, 123);
    let remodel = Remodel::new("token".to_string());
    assert_eq!(remodel.auth, "token");
}

#[test]
fn publish_reports_name_their_subjects() {
    let message = Message::new("key", 123);
    assert_eq!(
        message.publish_report("updates-main", "hello"),
        format!("{GREEN}Published{RESET} message \"hello\" with topic: updates-main")
    );
    let place = Place::new("key", 123);
    assert_eq!(
        place.publish_report(10, 4),
        "Published place (10) with version number: 4"
    );
    let universe = Universe::new("key", 123);
    assert_eq!(
        universe.publish_report("lobby", 10, 4),
        format!("{GREEN}Published{RESET} lobby (10) with version number: 4")
    );
}

#[test]
fn lua_arguments_are_quoted_and_joined() {
    assert_eq!(Remodel::lua_args(&vec![]), "");
    assert_eq!(Remodel::lua_args(&vec!["town".to_string()]), "\"town\"");
    assert_eq!(
        Remodel::lua_args(&vec!["a.rbxlx".to_string(), "town".to_string()]),
        "\"a.rbxlx\", \"town\""
    );
}

#[test]
fn scripted_calls_substitute_method_and_arguments() {
    assert_eq!(
        Remodel::script_source("importMap", &vec!["town".to_string()]),
        "local lib = remodel.readModelFile(\"remodel/lib.lua\")\nlib.importMap(\"town\")\n"
    );
    assert_eq!(
        Remodel::script_source("importAssets", &vec![]),
        "local lib = remodel.readModelFile(\"remodel/lib.lua\")\nlib.importAssets()\n"
    );
}
