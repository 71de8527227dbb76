use asterisk_manager::ManagerOptions;
use chrono::NaiveDate;
use duty_engineer_lib::asterisk::originate_command;
use duty_engineer_lib::config::{AmiOperator, AppConfig, CallPlan, ConfigManager};
use duty_engineer_lib::models::Engineer;
use duty_engineer_lib::phone::parse_phone;
use duty_engineer_lib::rotation::next_duty_index;

fn engineer(first: &str, last: &str, phone: &str) -> Engineer {
    Engineer {
        first_name: first.to_string(),
        last_name: last.to_string(),
        phone_number: phone.to_string(),
    }
}

fn config_with(engineers: Vec<Engineer>, index: usize) -> AppConfig {
    AppConfig {
        last_rotation: NaiveDate::from_ymd_opt(2024, 5, 17).unwrap(),
        current_duty_index: index,
        engineers,
        ami_manager: None,
        ami_operator: None,
    }
}

fn three_engineers() -> Vec<Engineer> {
    vec![
        engineer("Ivan", "Petrenko", "+38(050)-111-11-11"),
        engineer("Olena", "Koval", "+38(067)-222-22-22"),
        engineer("Taras", "Bondar", "+38(093)-333-33-33"),
    ]
}

fn operator() -> AmiOperator {
    AmiOperator { operator_number: 1234, context: "from-internal".to_string() }
}

#[test]
fn parse_phone_standardises_documented_example() {
    assert_eq!(parse_phone("+38(050)-111-11-11"), "0501111111");
}

#[test]
fn parse_phone_keeps_plain_number() {
    assert_eq!(parse_phone("0501111111"), "0501111111");
}

#[test]
fn parse_phone_of_empty_is_empty() {
    assert_eq!(parse_phone(""), "");
}

#[test]
fn parse_phone_removes_code_only_after_separators_are_gone() {
    assert_eq!(parse_phone("+(38)050"), "050");
    assert_eq!(parse_phone("+3+388"), "+38");
    assert_eq!(parse_phone("+39(050)"), "+39050");
}

#[test]
fn parse_phone_keeps_other_characters() {
    assert_eq!(parse_phone("тел. 050 (111)"), "тел. 050 111");
}

#[test]
fn default_engineer_is_placeholder() {
    let e = Engineer::default();
    assert_eq!(e, engineer("Tom", "Hanks", "+38(012)-345-67-89"));
    assert_eq!(parse_phone(&e.phone_number), "0123456789");
}

#[test]
fn default_config_has_one_engineer_on_duty() {
    let c = AppConfig::default();
    assert_eq!(c.current_duty_index, 0);
    assert_eq!(c.engineers, vec![Engineer::default()]);
    assert!(c.ami_manager.is_none());
    assert!(c.ami_operator.is_none());
    assert_eq!(c.current_engineer(), Some(Engineer::default()));
}

#[test]
fn next_index_moves_on_and_wraps() {
    assert_eq!(next_duty_index(0, 3), 1);
    assert_eq!(next_duty_index(1, 3), 2);
    assert_eq!(next_duty_index(2, 3), 0);
    assert_eq!(next_duty_index(7, 3), 0);
    assert_eq!(next_duty_index(0, 1), 0);
}

#[test]
fn rotate_duty_goes_round_and_comes_back() {
    let mut c = config_with(three_engineers(), 1);
    let start_date = c.last_rotation;
    assert_eq!(c.rotate_duty().unwrap().first_name, "Taras");
    assert_eq!(c.current_duty_index, 2);
    assert_eq!(c.rotate_duty().unwrap().first_name, "Ivan");
    assert_eq!(c.current_duty_index, 0);
    assert_eq!(c.rotate_duty().unwrap().first_name, "Olena");
    assert_eq!(c.current_duty_index, 1);
    assert_eq!(c.engineers, three_engineers());
    assert_eq!(c.last_rotation, start_date);
}

#[test]
fn rotate_duty_visits_everyone_once_per_round() {
    let mut c = config_with(three_engineers(), 0);
    let mut seen = Vec::new();
    for _ in 0..3 {
        seen.push(c.rotate_duty().unwrap().last_name);
    }
    seen.sort();
    assert_eq!(seen, vec!["Bondar", "Koval", "Petrenko"]);
    assert_eq!(c.current_duty_index, 0);
}

#[test]
fn rotate_duty_with_single_engineer_changes_nothing() {
    let mut c = config_with(vec![engineer("A", "B", "1")], 0);
    assert_eq!(c.rotate_duty(), None);
    assert_eq!(c.current_duty_index, 0);
}

#[test]
fn rotate_duty_from_index_out_of_range_restarts_at_first() {
    let mut c = config_with(three_engineers(), 9);
    assert_eq!(c.rotate_duty().unwrap().first_name, "Ivan");
    assert_eq!(c.current_duty_index, 0);
}

#[test]
fn current_engineer_in_and_out_of_range() {
    let c = config_with(three_engineers(), 2);
    assert_eq!(c.current_engineer().unwrap().first_name, "Taras");
    let c = config_with(three_engineers(), 3);
    assert_eq!(c.current_engineer(), None);
    let c = config_with(Vec::new(), 0);
    assert_eq!(c.current_engineer(), None);
}

#[test]
fn set_asterisk_config_replaces_only_asterisk_settings() {
    let mut c = config_with(three_engineers(), 1);
    let options = ManagerOptions {
        port: 5038,
        host: "10.0.0.5".to_string(),
        username: "admin".to_string(),
        password: "SECRET-REDACTED".to_string(),
        events: false,
    };
    c.set_asterisk_config(Some(operator()), Some(options));
    assert_eq!(c.ami_operator, Some(operator()));
    let stored = c.ami_manager_options().unwrap();
    assert_eq!(stored.host, "10.0.0.5");
    assert_eq!(stored.port, 5038);
    assert_eq!(c.current_duty_index, 1);
    assert_eq!(c.engineers, three_engineers());
    c.set_asterisk_config(None, None);
    assert!(c.ami_operator.is_none());
    assert!(c.ami_manager_options().is_none());
}

#[test]
fn plan_call_without_asterisk() {
    let c = config_with(three_engineers(), 0);
    assert_eq!(c.plan_call(false), CallPlan::AsteriskNotConfigured);
}

#[test]
fn plan_call_without_operator() {
    let c = config_with(three_engineers(), 0);
    assert_eq!(c.plan_call(true), CallPlan::OperatorNotConfigured);
}

#[test]
fn plan_call_dials_engineer_on_duty() {
    let mut c = config_with(three_engineers(), 1);
    c.ami_operator = Some(operator());
    assert_eq!(
        c.plan_call(true),
        CallPlan::Dial { phone_number: "+38(067)-222-22-22".to_string(), operator: operator() }
    );
}

fn pair(name: &str, value: &str) -> (String, String) {
    (name.to_string(), value.to_string())
}

#[test]
fn originate_command_holds_documented_parameters() {
    let cmd = originate_command("+38(050)-111-11-11", &operator());
    assert_eq!(cmd.action, "Originate");
    assert_eq!(
        cmd.params,
        vec![
            pair("Channel", "SIP/1234"),
            pair("Context", "from-internal"),
            pair("Exten", "0501111111"),
            pair("Priority", "1"),
            pair("Async", "true"),
            pair("CallerID", "Дежурный оператор"),
        ]
    );
}

#[test]
fn originate_channel_writes_operator_number_in_decimal() {
    let zero = AmiOperator { operator_number: 0, context: String::new() };
    assert_eq!(originate_command("1", &zero).params[0], pair("Channel", "SIP/0"));
    let max = AmiOperator { operator_number: u32::MAX, context: String::new() };
    assert_eq!(originate_command("1", &max).params[0], pair("Channel", "SIP/4294967295"));
    let ten = AmiOperator { operator_number: 10, context: String::new() };
    assert_eq!(originate_command("1", &ten).params[0], pair("Channel", "SIP/10"));
}

#[test]
fn config_manager_keeps_its_path() {
    let path = std::path::PathBuf::from("/home/user/.config/DutyEngineers/config.toml");
    let m = ConfigManager::from_path(path.clone());
    assert_eq!(m.path(), &path);
}

#[test]
fn fresh_config_is_rotated_on_given_day() {
    let day = NaiveDate::from_ymd_opt(2025, 2, 28).unwrap();
    let c = AppConfig::fresh(day);
    assert_eq!(c.last_rotation, day);
    assert_eq!(c.current_duty_index, 0);
    assert_eq!(c.engineers, vec![Engineer::default()]);
    assert!(c.ami_manager.is_none());
    assert!(c.ami_operator.is_none());
}

#[test]
fn cloned_config_holds_same_values() {
    let mut c = config_with(three_engineers(), 2);
    c.set_asterisk_config(
        Some(operator()),
        Some(ManagerOptions {
            port: 5038,
            host: "pbx".to_string(),
            username: "u".to_string(),
            password: "SECRET-REDACTED".to_string(),
            events: true,
        }),
    );
    let d = c.clone();
    assert_eq!(d.last_rotation, c.last_rotation);
    assert_eq!(d.current_duty_index, 2);
    assert_eq!(d.engineers, three_engineers());
    assert_eq!(d.ami_operator, Some(operator()));
    let o = d.ami_manager.unwrap();
    assert_eq!((o.port, o.host.as_str(), o.events), (5038, "pbx", true));
}
