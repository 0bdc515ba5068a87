use std::cell::Cell;

use sites_namespace::reconcile::{site, Phase, Reconciler, SiteError, Step, Target};
use sites_namespace::remote::{classify, find_title, Category, NamespaceHandle, ProviderError, RemoteError};
use sites_namespace::title::namespace_title;

fn target(name: &str) -> Target {
    Target { account_id: "acct-1".to_string(), name: name.to_string() }
}

fn handle(id: &str, title: &str) -> NamespaceHandle {
    NamespaceHandle { id: id.to_string(), title: title.to_string() }
}

fn errors(codes: &[u16]) -> Vec<ProviderError> {
    codes
        .iter()
        .map(|c| ProviderError { code: *c, message: format!("error {}", c) })
        .collect()
}

#[test]
fn title_production() {
    assert_eq!(namespace_title("myapp", false), "__myapp-workers_sites_assets");
}

#[test]
fn title_preview() {
    assert_eq!(namespace_title("myapp", true), "__myapp-workers_sites_assets_preview");
}

#[test]
fn title_empty_project_name() {
    assert_eq!(namespace_title("", false), "__-workers_sites_assets");
}

#[test]
fn title_deterministic_and_distinct() {
    assert_eq!(namespace_title("blog", true), namespace_title("blog", true));
    assert_ne!(namespace_title("blog", true), namespace_title("blog", false));
    assert_ne!(namespace_title("blog", false), namespace_title("blog2", false));
    assert_ne!(
        namespace_title("a-workers_sites_assets", false),
        namespace_title("a", true)
    );
}

#[test]
fn classify_conflict() {
    assert_eq!(classify(&errors(&[10014])), Category::AlreadyExists);
}

#[test]
fn classify_not_entitled() {
    assert_eq!(classify(&errors(&[10026])), Category::FeatureNotEntitled);
    assert_eq!(classify(&errors(&[10026, 10026])), Category::FeatureNotEntitled);
}

#[test]
fn classify_conflict_takes_precedence() {
    assert_eq!(classify(&errors(&[10014, 10000])), Category::AlreadyExists);
    assert_eq!(classify(&errors(&[10000, 10014])), Category::AlreadyExists);
    assert_eq!(classify(&errors(&[10026, 10014])), Category::AlreadyExists);
}

#[test]
fn classify_unclassified() {
    assert_eq!(classify(&errors(&[10000])), Category::Unclassified);
    assert_eq!(classify(&errors(&[10026, 10000])), Category::Unclassified);
    assert_eq!(classify(&errors(&[])), Category::Unclassified);
}

#[test]
fn find_title_first_match() {
    let list = vec![handle("1", "a"), handle("2", "b"), handle("3", "b")];
    assert_eq!(find_title(&list, &"b".to_string()), Some(1));
    assert_eq!(find_title(&list, &"c".to_string()), None);
    assert_eq!(find_title(&Vec::new(), &"a".to_string()), None);
}

#[test]
fn scenario_create_succeeds() {
    let created_with = Cell::new(None);
    let r = site(
        &target("myapp"),
        false,
        |account, title| {
            created_with.set(Some((account.clone(), title.clone())));
            Ok(NamespaceHandle { id: "ns-1".to_string(), title })
        },
        |_| panic!("no list call is made after a successful create"),
    );
    let h = r.unwrap();
    assert_eq!(h.title, "__myapp-workers_sites_assets");
    assert_eq!(h.id, "ns-1");
    assert_eq!(
        created_with.take(),
        Some(("acct-1".to_string(), "__myapp-workers_sites_assets".to_string()))
    );
}

#[test]
fn scenario_conflict_then_found() {
    let listed_for = Cell::new(None);
    let r = site(
        &target("myapp"),
        false,
        |_, _| Err(RemoteError::Provider(errors(&[10014]))),
        |account| {
            listed_for.set(Some(account));
            Ok(vec![
                handle("ns-0", "__other-workers_sites_assets"),
                handle("ns-7", "__myapp-workers_sites_assets"),
                handle("ns-8", "__myapp-workers_sites_assets_preview"),
            ])
        },
    );
    let h = r.unwrap();
    assert_eq!(h.id, "ns-7");
    assert_eq!(h.title, "__myapp-workers_sites_assets");
    assert_eq!(listed_for.take(), Some("acct-1".to_string()));
}

#[test]
fn scenario_not_entitled() {
    let r = site(
        &target("myapp"),
        false,
        |_, _| Err(RemoteError::Provider(errors(&[10026]))),
        |_| panic!("no list call is made when the feature is missing"),
    );
    assert!(matches!(r, Err(SiteError::FeatureNotEntitled)));
}

#[test]
fn scenario_conflict_but_not_listed() {
    let r = site(
        &target("myapp"),
        false,
        |_, _| Err(RemoteError::Provider(errors(&[10014]))),
        |_| Ok(vec![handle("ns-8", "__myapp-workers_sites_assets_preview")]),
    );
    assert!(matches!(r, Err(SiteError::AlreadyExistsButNotFound)));
}

#[test]
fn scenario_conflict_among_other_codes() {
    let r = site(
        &target("myapp"),
        true,
        |_, _| Err(RemoteError::Provider(errors(&[10000, 10014]))),
        |_| Ok(vec![handle("ns-9", "__myapp-workers_sites_assets_preview")]),
    );
    assert_eq!(r.unwrap().id, "ns-9");
}

#[test]
fn unclassified_error_is_surfaced() {
    let r = site(
        &target("myapp"),
        false,
        |_, _| Err(RemoteError::Provider(errors(&[10000, 10026]))),
        |_| panic!("no list call is made on an unclassified error"),
    );
    match r {
        Err(SiteError::UnclassifiedProviderError(e)) => {
            assert_eq!(e.len(), 2);
            assert_eq!(e[0].code, 10000);
            assert_eq!(e[1].code, 10026);
        }
        other => panic!("unexpected result {:?}", other),
    }
}

#[test]
fn transport_failure_on_create() {
    let r = site(
        &target("myapp"),
        false,
        |_, _| Err(RemoteError::Transport("connection reset".to_string())),
        |_| panic!("no list call is made after a transport failure"),
    );
    match r {
        Err(SiteError::TransportFailure(d)) => assert_eq!(d, "connection reset"),
        other => panic!("unexpected result {:?}", other),
    }
}

#[test]
fn list_failure_is_surfaced() {
    let r = site(
        &target("myapp"),
        false,
        |_, _| Err(RemoteError::Provider(errors(&[10014]))),
        |_| Err(RemoteError::Provider(errors(&[10000]))),
    );
    assert!(matches!(r, Err(SiteError::UnclassifiedProviderError(ref e)) if e[0].code == 10000));
    let r = site(
        &target("myapp"),
        false,
        |_, _| Err(RemoteError::Provider(errors(&[10014]))),
        |_| Err(RemoteError::Transport("timeout".to_string())),
    );
    assert!(matches!(r, Err(SiteError::TransportFailure(ref d)) if d == "timeout"));
}

#[test]
fn repeated_provisioning_same_title() {
    let t = target("docs");
    let first = site(
        &t,
        true,
        |_, title| Ok(NamespaceHandle { id: "ns-1".to_string(), title }),
        |_| panic!("the first run creates"),
    )
    .unwrap();
    let listed = vec![handle("ns-1", &first.title)];
    let second = site(
        &t,
        true,
        |_, _| Err(RemoteError::Provider(errors(&[10014]))),
        move |_| Ok(listed),
    )
    .unwrap();
    assert_eq!(first.title, second.title);
    assert_eq!(first.id, second.id);
}

#[test]
fn reconciler_phases() {
    let mut r = Reconciler::new(&target("shop"), false);
    assert_eq!(r.phase, Phase::Creating);
    assert_eq!(r.account_id, "acct-1");
    assert_eq!(r.title, "__shop-workers_sites_assets");
    let step = r.on_created(Err(RemoteError::Provider(errors(&[10014]))));
    assert!(matches!(step, Step::Lookup));
    assert_eq!(r.phase, Phase::Listing);
    let out = r.on_listed(Ok(vec![handle("x", "__shop-workers_sites_assets")]));
    assert_eq!(out.unwrap().id, "x");
    assert_eq!(r.phase, Phase::Done);
}

#[test]
fn reconciler_fails_on_missing_entry() {
    let mut r = Reconciler::new(&target("shop"), true);
    assert!(matches!(r.on_created(Err(RemoteError::Provider(errors(&[10014])))), Step::Lookup));
    let out = r.on_listed(Ok(vec![handle("x", "__shop-workers_sites_assets")]));
    assert!(matches!(out, Err(SiteError::AlreadyExistsButNotFound)));
    assert_eq!(r.phase, Phase::Failed);
}

#[test]
fn reconciler_done_on_create() {
    let mut r = Reconciler::new(&target("shop"), true);
    let step = r.on_created(Ok(handle("n", "__shop-workers_sites_assets_preview")));
    assert!(matches!(step, Step::Done(ref h) if h.id == "n"));
    assert_eq!(r.phase, Phase::Done);
}
