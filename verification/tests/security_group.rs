use ostui::action::Action;
use ostui::event::AppEvent;
use ostui::models::neutron::{SecurityGroup, SecurityGroupRule};
use ostui::module::security_group::view_model::{
    rule_to_row, sg_columns, sg_create_defs, sg_detail_data, sg_rule_defs, sg_to_row,
};
use ostui::module::security_group::SecurityGroupModule;
use ostui::ui::form::{FieldDef, Validation};

fn make_sg(id: &str, name: &str) -> SecurityGroup {
    SecurityGroup { id: id.into(), name: name.into(), description: None, security_group_rules: vec![], tenant_id: None }
}

fn setup() -> SecurityGroupModule {
    let mut module = SecurityGroupModule::new();
    module.handle_event(&AppEvent::SecurityGroupsLoaded(vec![make_sg("sg-1", "default"), make_sg("sg-2", "web")]));
    module
}

fn rule(id: &str, direction: &str, protocol: Option<&str>, min: Option<u16>, max: Option<u16>, prefix: Option<&str>) -> SecurityGroupRule {
    SecurityGroupRule {
        id: id.into(),
        direction: direction.into(),
        protocol: protocol.map(|s| s.to_string()),
        port_range_min: min,
        port_range_max: max,
        remote_ip_prefix: prefix.map(|s| s.to_string()),
        remote_group_id: None,
        ethertype: "IPv4".into(),
    }
}

#[test]
fn test_handle_event_sgs_loaded() {
    let mut module = SecurityGroupModule::new();
    let sgs = vec![make_sg("sg-1", "test")];
    module.handle_event(&AppEvent::SecurityGroupsLoaded(sgs));
    assert_eq!(module.security_groups().len(), 1);
}

#[test]
fn test_handle_event_sg_deleted_triggers_refresh() {
    let mut module = setup();
    module.handle_event(&AppEvent::SecurityGroupDeleted { id: "sg-1".into() });
    let actions = module.take_actions();
    assert!(matches!(actions[0], Action::FetchSecurityGroups));
}

#[test]
fn test_handle_event_rule_created_triggers_refresh() {
    let mut module = setup();
    let r = rule("rule-new", "ingress", Some("tcp"), Some(443), Some(443), None);
    module.handle_event(&AppEvent::SecurityGroupRuleCreated(r));
    let actions = module.take_actions();
    assert!(matches!(actions[0], Action::FetchSecurityGroups));
}

fn make_view_sg() -> SecurityGroup {
    SecurityGroup {
        id: "sg-1".into(),
        name: "web-sg".into(),
        description: Some("Web security group".into()),
        security_group_rules: vec![
            rule("rule-1", "ingress", Some("tcp"), Some(80), Some(80), Some("0.0.0.0/0")),
            rule("rule-2", "egress", None, None, None, None),
        ],
        tenant_id: None,
    }
}

#[test]
fn test_sg_to_row() {
    let sg = make_view_sg();
    let row = sg_to_row(&sg, false);
    assert_eq!(row.id, "sg-1");
    assert_eq!(row.cells[0], "web-sg");
    assert_eq!(row.cells[1], "Web security group");
    assert_eq!(row.cells[2], "2");
}

#[test]
fn test_rule_to_row_with_ports() {
    let r = rule("rule-1", "ingress", Some("tcp"), Some(22), Some(22), Some("10.0.0.0/8"));
    let row = rule_to_row(&r);
    assert_eq!(row[0], "ingress");
    assert_eq!(row[1], "tcp");
    assert_eq!(row[2], "22");
    assert_eq!(row[3], "10.0.0.0/8");
}

#[test]
fn test_rule_to_row_port_range() {
    let r = rule("rule-1", "ingress", Some("tcp"), Some(8000), Some(9000), None);
    let row = rule_to_row(&r);
    assert_eq!(row[2], "8000-9000");
    assert_eq!(row[3], "Any");
}

#[test]
fn test_rule_to_row_any_protocol() {
    let r = rule("rule-1", "egress", None, None, None, None);
    let row = rule_to_row(&r);
    assert_eq!(row[1], "Any");
    assert_eq!(row[2], "Any");
}

#[test]
fn test_sg_detail_data() {
    let sg = make_view_sg();
    let data = sg_detail_data(&sg);
    assert_eq!(data.title, "Security Group: web-sg");
    assert!(data.sections.len() >= 2);
    assert!(data.sections.iter().any(|s| s.name == "Ingress Rules"));
    assert!(data.sections.iter().any(|s| s.name == "Egress Rules"));
}

#[test]
fn test_sg_detail_data_no_rules() {
    let sg = SecurityGroup { id: "sg-empty".into(), name: "empty-sg".into(), description: None, security_group_rules: vec![], tenant_id: None };
    let data = sg_detail_data(&sg);
    assert_eq!(data.sections.len(), 1);
    assert!(data.sections.iter().all(|s| s.name != "Ingress Rules"));
    assert!(data.sections.iter().all(|s| s.name != "Egress Rules"));
}

#[test]
fn test_sg_create_defs() {
    let defs = sg_create_defs();
    assert_eq!(defs.len(), 2);
    assert_eq!(defs[0].name(), "Name");
    assert!(defs[0].validations().contains(&Validation::Required));
    assert_eq!(defs[1].name(), "Description");
    assert!(!defs[1].validations().contains(&Validation::Required));
}

#[test]
fn test_sg_rule_defs() {
    let defs = sg_rule_defs();
    assert_eq!(defs.len(), 5);
    assert_eq!(defs[0].name(), "Direction");
    assert!(defs[0].validations().contains(&Validation::Required));
    assert!(matches!(defs[0], FieldDef::Dropdown { .. }));
    assert_eq!(defs[1].name(), "Protocol");
    assert!(!defs[1].validations().contains(&Validation::Required));
    assert_eq!(defs[2].name(), "Port Min");
    assert_eq!(defs[3].name(), "Port Max");
    assert_eq!(defs[4].name(), "Source CIDR");
}

#[test]
fn test_sg_columns_count() {
    assert_eq!(sg_columns(false).len(), 3);
    assert_eq!(sg_columns(true).len(), 4);
    assert_eq!(sg_columns(true)[1].name, "Project");
}

#[test]
fn sg_list_enter_and_delete() {
    let mut module = setup();
    module.handle_list_key(ostui::ui::key::Key::Char('d'));
    assert!(module.confirm_is_active());
    let mut module = setup();
    module.handle_list_key(ostui::ui::key::Key::Enter);
    assert_eq!(*module.view_state(), ostui::module::ViewState::Detail("sg-1".into()));
}
