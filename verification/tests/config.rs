use webhook_relay::config::{load, Config, Environment, Startup, StartupError, Variable};

fn complete() -> Environment {
    Environment {
        discord_token: Some(String::from("token")),
        channel_id: Some(String::from("100")),
        target_message: Some(String::from("GO")),
        target_user_id: Some(String::from("200")),
        webhook_url: Some(String::from("http://x/hook")),
    }
}

#[test]
fn variable_names() {
    assert_eq!(Variable::DiscordToken.name(), "DISCORD_TOKEN");
    assert_eq!(Variable::ChannelId.name(), "CHANNEL_ID");
    assert_eq!(Variable::TargetMessage.name(), "TARGET_MESSAGE");
    assert_eq!(Variable::TargetUserId.name(), "TARGET_USER_ID");
    assert_eq!(Variable::WebhookUrl.name(), "WEBHOOK_URL");
}

#[test]
fn load_complete_environment() {
    assert_eq!(
        load(complete()),
        Ok(Startup {
            token: String::from("token"),
            config: Config {
                channel_id: 100,
                target_user_id: 200,
                target_text: String::from("GO"),
                webhook_url: String::from("http://x/hook"),
            },
        })
    );
}

#[test]
fn load_keeps_strings_as_they_are() {
    let env = Environment {
        discord_token: Some(String::from(" t ")),
        channel_id: Some(String::from("+18446744073709551615")),
        target_message: Some(String::from("  spaced out  ")),
        target_user_id: Some(String::from("007")),
        webhook_url: Some(String::new()),
    };
    let startup = load(env).unwrap();
    assert_eq!(startup.token, " t ");
    assert_eq!(startup.config.channel_id, u64::MAX);
    assert_eq!(startup.config.target_user_id, 7);
    assert_eq!(startup.config.target_text, "  spaced out  ");
    assert_eq!(startup.config.webhook_url, "");
}

#[test]
fn load_missing_token() {
    let mut env = complete();
    env.discord_token = None;
    assert_eq!(load(env), Err(StartupError::Missing(Variable::DiscordToken)));
}

#[test]
fn load_missing_channel() {
    let mut env = complete();
    env.channel_id = None;
    assert_eq!(load(env), Err(StartupError::Missing(Variable::ChannelId)));
}

#[test]
fn load_missing_target_message() {
    let mut env = complete();
    env.target_message = None;
    assert_eq!(load(env), Err(StartupError::Missing(Variable::TargetMessage)));
}

#[test]
fn load_missing_target_user() {
    let mut env = complete();
    env.target_user_id = None;
    assert_eq!(load(env), Err(StartupError::Missing(Variable::TargetUserId)));
}

#[test]
fn load_missing_webhook() {
    let mut env = complete();
    env.webhook_url = None;
    assert_eq!(load(env), Err(StartupError::Missing(Variable::WebhookUrl)));
}

#[test]
fn load_unparseable_channel() {
    for text in ["", "abc", "-1", "1.5", " 100", "18446744073709551616"] {
        let mut env = complete();
        env.channel_id = Some(String::from(text));
        assert_eq!(load(env), Err(StartupError::Unparseable(Variable::ChannelId)), "{:?}", text);
    }
}

#[test]
fn load_unparseable_target_user() {
    for text in ["", "user", "200 ", "0x20", "99999999999999999999"] {
        let mut env = complete();
        env.target_user_id = Some(String::from(text));
        assert_eq!(
            load(env),
            Err(StartupError::Unparseable(Variable::TargetUserId)),
            "{:?}",
            text
        );
    }
}

#[test]
fn load_reports_the_first_fault() {
    let nothing = Environment {
        discord_token: None,
        channel_id: None,
        target_message: None,
        target_user_id: None,
        webhook_url: None,
    };
    assert_eq!(load(nothing), Err(StartupError::Missing(Variable::DiscordToken)));

    let mut env = complete();
    env.channel_id = Some(String::from("x"));
    env.target_message = None;
    assert_eq!(load(env), Err(StartupError::Unparseable(Variable::ChannelId)));

    let mut env = complete();
    env.target_message = None;
    env.target_user_id = Some(String::from("x"));
    assert_eq!(load(env), Err(StartupError::Missing(Variable::TargetMessage)));

    let mut env = complete();
    env.target_user_id = Some(String::from("x"));
    env.webhook_url = None;
    assert_eq!(load(env), Err(StartupError::Unparseable(Variable::TargetUserId)));

    let mut env = complete();
    env.channel_id = None;
    env.webhook_url = None;
    assert_eq!(load(env), Err(StartupError::Missing(Variable::ChannelId)));
}

#[test]
fn load_accepts_zero_and_empty_values() {
    let env = Environment {
        discord_token: Some(String::new()),
        channel_id: Some(String::from("0")),
        target_message: Some(String::new()),
        target_user_id: Some(String::from("0")),
        webhook_url: Some(String::new()),
    };
    let startup = load(env).unwrap();
    assert_eq!(startup.config.channel_id, 0);
    assert_eq!(startup.config.target_user_id, 0);
    assert_eq!(startup.config.target_text, "");
}
