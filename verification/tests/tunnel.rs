use ambry::tunnel::{random_port, ssh_args, tunnel_exit_error, Tunnels, PORT_HIGH, PORT_LOW};
use ambry::types::SshConfig;

fn ssh(auth: &str, key: Option<&str>) -> SshConfig {
    SshConfig {
        enabled: true,
        host: "bastion.example".into(),
        port: 2222,
        username: "deploy".into(),
        auth_method: auth.into(),
        password: None,
        key_path: key.map(|k| k.to_string()),
    }
}

#[test]
fn ports_stay_in_ephemeral_range() {
    for _ in 0..1000 {
        let port = random_port();
        assert!((49152..=65534).contains(&port));
    }
    assert_eq!(PORT_LOW, 49152);
    assert_eq!(PORT_HIGH, 65534);
}

#[test]
fn close_without_tunnel_is_noop() {
    let mut tunnels: Tunnels<u32> = Tunnels::new();
    assert_eq!(tunnels.close("nope"), None);
    tunnels.opened("c1".into(), 7);
    assert_eq!(tunnels.close("nope"), None);
    assert_eq!(tunnels.close("c1"), Some(7));
    assert_eq!(tunnels.close("c1"), None);
}

#[test]
fn ssh_args_with_key() {
    let args = ssh_args(&ssh("key", Some("/home/me/.ssh/id")), "db.internal", 5432, 50000);
    assert_eq!(
        args,
        vec![
            "-N",
            "-L",
            "50000:db.internal:5432",
            "-p",
            "2222",
            "-o",
            "StrictHostKeyChecking=no",
            "-o",
            "ExitOnForwardFailure=yes",
            "-i",
            "/home/me/.ssh/id",
            "deploy@bastion.example",
        ]
    );
}

#[test]
fn ssh_args_without_key() {
    let args = ssh_args(&ssh("password", Some("/ignored")), "h", 3306, 49152);
    assert_eq!(args.len(), 10);
    assert_eq!(args[2], "49152:h:3306");
    assert_eq!(args[9], "deploy@bastion.example");
    let empty_key = ssh_args(&ssh("key", Some("")), "h", 1, 2);
    assert_eq!(empty_key.len(), 10);
    let no_key = ssh_args(&ssh("key", None), "h", 1, 2);
    assert_eq!(no_key.len(), 10);
}

#[test]
fn exit_codes() {
    assert_eq!(tunnel_exit_error(None), None);
    assert_eq!(tunnel_exit_error(Some(0)), None);
    assert_eq!(
        tunnel_exit_error(Some(255)),
        Some("SSH tunnel exited with code 255".to_string())
    );
    assert_eq!(
        tunnel_exit_error(Some(-1)),
        Some("SSH tunnel exited with code -1".to_string())
    );
}
