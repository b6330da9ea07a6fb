use zs::features::direnv::Direnv;
use zs::workspace::Workspace;

fn ws() -> Workspace {
    Workspace {
        repo_name: "r".to_string(),
        repo: None,
        branch: "b".to_string(),
        path: "/w".to_string(),
    }
}

#[test]
fn direnv_trust_and_envrc() {
    let d = Direnv { trust: true, envrc: Some("export A=1".to_string()) };
    let c = d.trust_command(&ws()).unwrap();
    assert_eq!(c.program, "direnv");
    assert_eq!(c.args, vec!["allow".to_string(), "/w".to_string()]);
    assert_eq!(d.envrc_file(&ws()), Some(("/w/.envrc".to_string(), "export A=1".to_string())));
    let off = Direnv { trust: false, envrc: None };
    assert!(off.trust_command(&ws()).is_none());
    assert!(off.envrc_file(&ws()).is_none());
}
