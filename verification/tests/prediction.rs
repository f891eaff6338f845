use prediction_creator::menu::menu_items;
use prediction_creator::prediction::{
    last_active_prediction, plan_prediction, Outcome, Prediction, PredictionPlan,
    PredictionStatus,
};

fn sample(status: PredictionStatus) -> Prediction {
    Prediction {
        id: "pred-1".to_string(),
        title: "Will we win?".to_string(),
        status,
        outcomes: vec![
            Outcome { id: "out-1".to_string(), title: "Win".to_string() },
            Outcome { id: "out-2".to_string(), title: "Lose".to_string() },
        ],
    }
}

#[test]
fn lookup_returns_an_active_prediction() {
    let r = last_active_prediction(vec![sample(PredictionStatus::Active)]);
    let p = r.expect("an active prediction should be returned");
    assert_eq!(p.id, "pred-1");
    assert_eq!(p.title, "Will we win?");
}

#[test]
fn lookup_returns_a_locked_prediction() {
    let r = last_active_prediction(vec![sample(PredictionStatus::Locked)]);
    assert!(r.is_some());
}

#[test]
fn lookup_ignores_a_resolved_prediction() {
    let r = last_active_prediction(vec![sample(PredictionStatus::Resolved)]);
    assert!(r.is_none());
}

#[test]
fn lookup_ignores_a_canceled_prediction() {
    let r = last_active_prediction(vec![sample(PredictionStatus::Canceled)]);
    assert!(r.is_none());
}

#[test]
fn lookup_ignores_an_unknown_status() {
    let r = last_active_prediction(vec![sample(PredictionStatus::Other)]);
    assert!(r.is_none());
}

#[test]
fn lookup_of_an_empty_response_finds_nothing() {
    let r = last_active_prediction(Vec::new());
    assert!(r.is_none());
}

#[test]
fn lookup_considers_only_the_most_recent_entry() {
    let r = last_active_prediction(vec![
        sample(PredictionStatus::Active),
        sample(PredictionStatus::Resolved),
    ]);
    assert!(r.is_none());
}

#[test]
fn no_running_prediction_issues_exactly_the_requested_create_call() {
    let plan = plan_prediction(
        None,
        "Will we win?".to_string(),
        vec!["Win".to_string(), "Lose".to_string()],
        30,
    );
    match plan {
        PredictionPlan::Create(req) => {
            assert_eq!(req.title, "Will we win?");
            assert_eq!(req.outcome_titles, vec!["Win".to_string(), "Lose".to_string()]);
            assert_eq!(req.window, 30);
        }
        PredictionPlan::Reuse(_) => panic!("expected a create call"),
    }
}

#[test]
fn a_locked_prediction_is_reused_and_its_outcomes_are_presented() {
    let existing = last_active_prediction(vec![sample(PredictionStatus::Locked)]);
    let plan = plan_prediction(
        existing,
        "A fresh title".to_string(),
        vec!["Yes".to_string(), "No".to_string()],
        30,
    );
    match plan {
        PredictionPlan::Reuse(p) => {
            assert_eq!(p.id, "pred-1");
            let items = menu_items(&p.outcomes);
            assert_eq!(
                items,
                vec![
                    "[1] Win".to_string(),
                    "[2] Lose".to_string(),
                    "CANCEL".to_string()
                ]
            );
        }
        PredictionPlan::Create(_) => panic!("no create call may be issued"),
    }
}
