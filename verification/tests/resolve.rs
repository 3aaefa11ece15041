use rusty_vault::resolve::{ResolveEvent, ResolveStage};
use rusty_vault::secret::SecretString;
use rusty_vault::{VaultClient, VaultClientErr};

#[derive(Clone, Copy, Default)]
struct World {
    env: Option<&'static str>,
    file: Option<&'static str>,
    valid: Option<&'static str>,
    server_down: bool,
    pod: bool,
    k8s: Option<&'static str>,
    oidc: Option<&'static str>,
}

fn run(world: World, oidc_callback: bool) -> (VaultClient, Vec<&'static str>, Result<String, String>) {
    let mut vc = VaultClient::default(None);
    vc.replace_token(&SecretString::from_plain("stale"));
    let mut trail = Vec::new();
    let mut stage = ResolveStage::EnvToken;
    loop {
        let lookup = |token: &SecretString| {
            if world.server_down {
                ResolveEvent::Lookup(Err(String::from("no route")))
            } else if world.valid == Some(token.expose_secret()) {
                ResolveEvent::Lookup(Ok(200))
            } else {
                ResolveEvent::Lookup(Ok(403))
            }
        };
        let event = match &stage {
            ResolveStage::EnvToken => {
                trail.push("env");
                ResolveEvent::EnvToken(world.env.map(String::from))
            }
            ResolveStage::EnvLookup(token) => {
                trail.push("env lookup");
                lookup(token)
            }
            ResolveStage::FileToken => {
                trail.push("file");
                ResolveEvent::FileToken(world.file.map(String::from))
            }
            ResolveStage::FileLookup(token) => {
                trail.push("file lookup");
                lookup(token)
            }
            ResolveStage::KubernetesProbe => {
                trail.push("probe");
                ResolveEvent::Kubernetes(world.pod)
            }
            ResolveStage::KubernetesLogin => {
                trail.push("kubernetes");
                ResolveEvent::KubernetesToken(world.k8s.map(SecretString::from_plain))
            }
            ResolveStage::OidcLogin => {
                trail.push("oidc");
                ResolveEvent::OidcToken(world.oidc.map(String::from))
            }
            ResolveStage::SaveToken(_) => {
                assert_eq!(vc.token().unwrap().expose_secret(), world.oidc.unwrap().trim());
                trail.push("save");
                ResolveEvent::Saved
            }
            ResolveStage::Finished(_) => break,
        };
        stage = vc.resolve_token(oidc_callback, stage, event);
    }
    let ResolveStage::Finished(result) = stage else {
        unreachable!();
    };
    let shown = match result {
        Ok(token) => Ok(String::from(token.expose_secret())),
        Err(VaultClientErr::InvalidToken(why)) => Err(why),
        Err(other) => panic!("unexpected error {:?}", other),
    };
    match &shown {
        Ok(token) => assert_eq!(vc.token().unwrap().expose_secret(), token),
        Err(_) => assert!(vc.token().is_none()),
    }
    (vc, trail, shown)
}

const NOTHING: &str = "no valid token found via env, file, Kubernetes, or OIDC login";

#[test]
fn a_valid_token_of_the_environment_wins() {
    let world = World {
        env: Some(" s.env\n"),
        file: Some("s.file"),
        valid: Some("s.env"),
        pod: true,
        k8s: Some("s.k8s"),
        ..World::default()
    };
    let (_, trail, result) = run(world, true);
    assert_eq!(trail, ["env", "env lookup"]);
    assert_eq!(result, Ok(String::from("s.env")));
}

#[test]
fn the_token_file_comes_second() {
    let world = World {
        env: Some("s.env"),
        file: Some("s.file\n"),
        valid: Some("s.file"),
        oidc: Some("s.oidc"),
        ..World::default()
    };
    let (_, trail, result) = run(world, true);
    assert_eq!(trail, ["env", "env lookup", "file", "file lookup"]);
    assert_eq!(result, Ok(String::from("s.file")));
}

#[test]
fn in_a_pod_kubernetes_comes_third() {
    let world = World { pod: true, k8s: Some("s.k8s"), oidc: Some("s.oidc"), ..World::default() };
    let (_, trail, result) = run(world, true);
    assert_eq!(trail, ["env", "file", "probe", "kubernetes"]);
    assert_eq!(result, Ok(String::from("s.k8s")));
}

#[test]
fn elsewhere_the_browser_comes_third_and_its_token_is_saved() {
    let world = World { oidc: Some(" s.oidc "), k8s: Some("s.k8s"), ..World::default() };
    let (_, trail, result) = run(world, true);
    assert_eq!(trail, ["env", "file", "probe", "oidc", "save"]);
    assert_eq!(result, Ok(String::from("s.oidc")));
}

#[test]
fn without_the_callback_feature_only_environment_and_file_are_checked() {
    for pod in [false, true] {
        let world = World {
            file: Some("old"),
            pod,
            k8s: Some("s.k8s"),
            oidc: Some("s.oidc"),
            ..World::default()
        };
        let (_, trail, result) = run(world, false);
        assert_eq!(trail, ["env", "file", "file lookup"]);
        assert_eq!(result, Err(String::from(NOTHING)));

        let world = World { pod, k8s: Some("s.k8s"), ..World::default() };
        let (_, trail, result) = run(world, false);
        assert_eq!(trail, ["env", "file"]);
        assert_eq!(result, Err(String::from(NOTHING)));

        let world = World { file: Some("s.file"), valid: Some("s.file"), pod, ..World::default() };
        let (_, trail, result) = run(world, false);
        assert_eq!(trail, ["env", "file", "file lookup"]);
        assert_eq!(result, Ok(String::from("s.file")));
    }
}

#[test]
fn in_a_pod_the_browser_follows_a_failed_kubernetes_login() {
    let world = World { pod: true, oidc: Some("s.oidc\n"), ..World::default() };
    let (_, trail, result) = run(world, true);
    assert_eq!(trail, ["env", "file", "probe", "kubernetes", "oidc", "save"]);
    assert_eq!(result, Ok(String::from("s.oidc")));

    let world = World { pod: true, ..World::default() };
    let (_, trail, result) = run(world, true);
    assert_eq!(trail, ["env", "file", "probe", "kubernetes", "oidc"]);
    assert_eq!(result, Err(String::from(NOTHING)));
}

#[test]
fn a_server_that_does_not_answer_accepts_nothing() {
    let world = World {
        env: Some("s.env"),
        file: Some("s.file"),
        valid: Some("s.env"),
        server_down: true,
        ..World::default()
    };
    let (_, trail, result) = run(world, true);
    assert_eq!(trail, ["env", "env lookup", "file", "file lookup", "probe", "oidc"]);
    assert_eq!(result, Err(String::from(NOTHING)));
}

#[test]
fn outcomes_that_are_not_awaited_change_nothing() {
    let mut vc = VaultClient::default(None);
    vc.replace_token(&SecretString::from_plain("kept"));
    let stage = vc.resolve_token(true, ResolveStage::OidcLogin, ResolveEvent::Lookup(Ok(200)));
    assert!(matches!(stage, ResolveStage::OidcLogin));
    assert_eq!(vc.token().unwrap().expose_secret(), "kept");
}

#[test]
fn the_same_token_is_looked_up_anew_for_each_source() {
    let mut vc = VaultClient::default(None);
    let token = || Some(String::from("s.same"));
    let stage = vc.resolve_token(false, ResolveStage::EnvToken, ResolveEvent::EnvToken(token()));
    let lost = ResolveEvent::Lookup(Err(String::from("timeout")));
    let stage = vc.resolve_token(false, stage, lost);
    assert!(matches!(stage, ResolveStage::FileToken));
    let stage = vc.resolve_token(false, stage, ResolveEvent::FileToken(token()));
    let stage = vc.resolve_token(false, stage, ResolveEvent::Lookup(Ok(200)));
    assert!(matches!(&stage, ResolveStage::Finished(Ok(t)) if t.expose_secret() == "s.same"));
    assert_eq!(vc.token().unwrap().expose_secret(), "s.same");
}
