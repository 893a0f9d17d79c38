use online_code_checker::badge::{
    badge, problem_badge_of_lower, solution_badge, solution_badge_of_lower, BadgeKind, Solution,
};
use online_code_checker::config::{
    Configuration, DatabaseConfiguration, ExecutorConfiguration, ProblemsConfiguration,
    ServerConfiguration,
};
use online_code_checker::problems::{CatalogError, Problem, ProblemsInfo};
use online_code_checker::submission::{Status, Verdict};

fn info() -> ProblemsInfo {
    ProblemsInfo {
        problem: vec![
            Problem { group: None, name: Some("A".to_string()), id: "a".to_string(), dir: "da".to_string() },
            Problem { group: None, name: Some("B".to_string()), id: "b".to_string(), dir: "db".to_string() },
            Problem { group: None, name: Some("B2".to_string()), id: "b".to_string(), dir: "db2".to_string() },
        ],
    }
}

#[test]
fn problem_lookup() {
    let i = info();
    assert_eq!(Problem::by_id(&i, "b").unwrap().dir, "db");
    assert_eq!(Problem::by_id(&i, "a").unwrap().name.as_deref(), Some("A"));
    assert_eq!(Problem::by_id(&i, "c").err(), Some(CatalogError::ProblemNotFound));
    assert_eq!(Problem::by_id(&ProblemsInfo { problem: vec![] }, "a").err(), Some(CatalogError::ProblemNotFound));
}

#[test]
fn catalog_paths() {
    assert_eq!(ProblemsInfo::info_path("/srv/p"), "/srv/p/info.toml");
    assert_eq!(info().problem[0].index_md_path("/srv/p"), "/srv/p/da/index.md");
}

#[test]
fn statement_rendered_as_html() {
    let html = Problem::statement_html("# Sum\n\nAdd *two* numbers.");
    assert!(html.contains("<h1>Sum</h1>"));
    assert!(html.contains("<em>two</em>"));
}

#[test]
fn status_texts() {
    assert_eq!(Status::Pending.as_text(), "Pending");
    assert_eq!(Status::Accepted.as_text(), "AC");
    assert_eq!(Status::Rejected.as_text(), "WA");
    assert_eq!(Status::from_text("AC"), Some(Status::Accepted));
    assert_eq!(Status::from_text("WA"), Some(Status::Rejected));
    assert_eq!(Status::from_text("Pending"), Some(Status::Pending));
    assert_eq!(Status::from_text("pending"), None);
    assert_eq!(Verdict::Accepted.to_status(), Status::Accepted);
    assert_eq!(Verdict::Rejected.to_status(), Status::Rejected);
}

#[test]
fn problem_badges() {
    let s = |v: &[Option<&str>]| v.iter().map(|x| x.map(|t| t.to_string())).collect::<Vec<_>>();
    assert_eq!(badge(&s(&[])), BadgeKind::Unsubmitted);
    assert_eq!(badge(&s(&[Some("WA"), Some("AC"), Some("Pending")])), BadgeKind::Done);
    assert_eq!(badge(&s(&[Some("WA"), Some("Pending")])), BadgeKind::Checking);
    assert_eq!(badge(&s(&[Some("WA"), None])), BadgeKind::Failed);
    assert_eq!(badge(&s(&[None, Some("odd")])), BadgeKind::Unknown);
    assert_eq!(problem_badge_of_lower(&vec!["wa".to_string()], true), BadgeKind::Failed);
    assert_eq!(problem_badge_of_lower(&vec!["AC".to_string()], true), BadgeKind::Unknown);
    assert_eq!(problem_badge_of_lower(&vec![], false), BadgeKind::Unsubmitted);
}

#[test]
fn submission_badges() {
    assert_eq!(solution_badge(&Some("AC".to_string())), BadgeKind::Done);
    assert_eq!(solution_badge(&Some("wa".to_string())), BadgeKind::Failed);
    assert_eq!(solution_badge(&Some("PENDING".to_string())), BadgeKind::Checking);
    assert_eq!(solution_badge(&Some("x".to_string())), BadgeKind::Unknown);
    assert_eq!(solution_badge(&None), BadgeKind::Unsubmitted);
    assert_eq!(solution_badge_of_lower("ac"), BadgeKind::Done);
    assert_eq!(solution_badge_of_lower("AC"), BadgeKind::Unknown);
}

#[test]
fn badge_appearance() {
    assert_eq!(BadgeKind::Done.text(), "完了");
    assert_eq!(BadgeKind::Failed.text(), "失敗");
    assert_eq!(BadgeKind::Checking.text(), "チェック");
    assert_eq!(BadgeKind::Unsubmitted.text(), "未完了");
    assert_eq!(BadgeKind::Unknown.text(), "不明");
    assert_eq!(BadgeKind::Done.color(), "text-bg-success");
    assert_eq!(BadgeKind::Unknown.color(), "badge text-bg-secondary");
    assert!(BadgeKind::Checking.should_refresh());
    assert!(!BadgeKind::Done.should_refresh());
}

#[test]
fn status_page_rows() {
    let s = Solution::from_row(4, None, None);
    assert!(s.should_refresh);
    let s = Solution::from_row(5, Some("out".to_string()), Some(String::new()));
    assert!(!s.should_refresh);
    assert_eq!(s.id, 5);
}

#[test]
fn configuration_needs_a_permit() {
    let mut c = Configuration {
        database: DatabaseConfiguration { url: "db.sqlite".to_string() },
        executor: ExecutorConfiguration { concurrent_limit: 2, memory_limit: 1 << 30 },
        server: ServerConfiguration { address: "0.0.0.0:3000".to_string(), secret_key: "k".to_string() },
        problems: ProblemsConfiguration { dir: "problems".to_string() },
    };
    assert!(c.is_valid());
    c.executor.concurrent_limit = 0;
    assert!(!c.is_valid());
}
