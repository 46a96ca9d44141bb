use graph_reach::config::{Config, ConfigError};
use graph_reach::dispatcher::{Dispatcher, SchedulingPolicy};
use graph_reach::driver::{next_action, on_event, Phase, RunAction, RunEvent};
use graph_reach::errors::{ConnectionError, SetupError};
use graph_reach::probe::{
    build_probe_request, outcome_reachable, probe_result, probe_verdict, NetworkNode, RouteOutcome,
};
use graph_reach::report::{summarize, Report};

fn node(pub_key: &str) -> NetworkNode {
    NetworkNode { pub_key: pub_key.to_string(), alias: String::new() }
}

#[test]
fn probe_request_asks_for_one_route() {
    let req = build_probe_request(&node("02abcdef"), 100000);
    assert_eq!(req.pub_key, "02abcdef");
    assert_eq!(req.amt, 100000);
    assert_eq!(req.num_routes, 1);
}

#[test]
fn outcome_projection() {
    assert!(outcome_reachable(&RouteOutcome::RouteFound { hops: 3, total_fees: 12 }));
    assert!(!outcome_reachable(&RouteOutcome::RouteNotFound));
    assert!(!outcome_reachable(&RouteOutcome::RpcError));
}

#[test]
fn probe_never_raises() {
    assert!(probe_verdict(&Ok(RouteOutcome::RouteFound { hops: 1, total_fees: 0 })));
    assert!(!probe_verdict(&Ok(RouteOutcome::RouteNotFound)));
    assert!(!probe_verdict(&Ok(RouteOutcome::RpcError)));
    assert!(!probe_verdict(&Err(ConnectionError)));
}

#[test]
fn probe_result_pairs_node_and_verdict() {
    let r = probe_result(&node("02aa"), &Ok(RouteOutcome::RouteNotFound));
    assert_eq!(r.pub_key, "02aa");
    assert!(!r.reachable);
}

#[test]
fn happy_path_phases_in_order() {
    let mut phase = Phase::Init;
    assert_eq!(next_action(&phase), RunAction::ValidateSession);
    phase = on_event(phase, RunEvent::SessionOk);
    assert_eq!(next_action(&phase), RunAction::FetchGraph);
    phase = on_event(phase, RunEvent::GraphOk { total: 3 });
    assert_eq!(next_action(&phase), RunAction::RunProbes { total: 3 });
    phase = on_event(phase, RunEvent::ProbesDone);
    assert_eq!(next_action(&phase), RunAction::Finish);
}

#[test]
fn missing_credential_aborts_before_any_fetch_or_query() {
    // a recording mock collaborator: every action the driver asks for is
    // logged; the credential load fails at startup validation
    let mut actions: Vec<RunAction> = Vec::new();
    let mut queries = 0usize;
    let mut fetches = 0usize;

    let mut phase = Phase::Init;
    loop {
        let action = next_action(&phase);
        actions.push(action);
        let event = match action {
            RunAction::ValidateSession => RunEvent::SessionFailed(SetupError::Credential),
            RunAction::FetchGraph => {
                fetches += 1;
                RunEvent::GraphOk { total: 0 }
            }
            RunAction::RunProbes { .. } => {
                queries += 1;
                RunEvent::ProbesDone
            }
            RunAction::Finish | RunAction::Abort => break,
        };
        phase = on_event(phase, event);
    }

    assert_eq!(phase, Phase::Aborted);
    assert_eq!(fetches, 0);
    assert_eq!(queries, 0);
    assert_eq!(actions, vec![RunAction::ValidateSession, RunAction::Abort]);
}

#[test]
fn aborted_runs_stay_aborted() {
    let phase = on_event(Phase::Aborted, RunEvent::SessionOk);
    assert_eq!(phase, Phase::Aborted);
    assert_eq!(next_action(&phase), RunAction::Abort);
}

#[test]
fn unexpected_events_abort() {
    assert_eq!(on_event(Phase::Init, RunEvent::ProbesDone), Phase::Aborted);
    assert_eq!(on_event(Phase::SessionValidated, RunEvent::GraphFailed), Phase::Aborted);
}

#[test]
fn three_node_scenario_only_first_reachable() {
    // nodes A, B and C; the mock finds a route only for A
    let nodes = vec![node("A"), node("B"), node("C")];
    let amount = 100000i64;
    let config = Config::from_args(&vec![
        "prog".to_string(),
        amount.to_string(),
        "./tls.cert".to_string(),
        "./readonly.macaroon".to_string(),
    ])
    .unwrap();

    let mock_query = |req_pub_key: &str| -> Result<RouteOutcome, ConnectionError> {
        if req_pub_key == "A" {
            Ok(RouteOutcome::RouteFound { hops: 2, total_fees: 1 })
        } else {
            Ok(RouteOutcome::RouteNotFound)
        }
    };

    let mut d = Dispatcher::new(nodes.len(), SchedulingPolicy::default_policy());
    while !d.is_complete() {
        let task = d.dispatch();
        let req = build_probe_request(&nodes[task], config.amount);
        let verdict = probe_verdict(&mock_query(req.pub_key.as_str()));
        d.complete(verdict);
    }
    let rep = summarize(&d.into_results(), config.amount).unwrap();
    assert_eq!(
        rep,
        Report { total: 3, reachable: 1, amount: 100000, percentage: 33 }
    );
}

#[test]
fn config_error_names_each_failure() {
    assert_eq!(
        Config::from_args(&vec!["prog".to_string()]),
        Err(ConfigError::NotEnoughArgs)
    );
    assert_eq!(
        Config::from_args(&vec![
            "prog".to_string(),
            "?".to_string(),
            "c".to_string(),
            "m".to_string(),
        ]),
        Err(ConfigError::BadAmount)
    );
}
