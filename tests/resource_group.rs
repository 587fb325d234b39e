use embedded_resources::{
    check_ident, generate, ownership_wrapper, parse_definition, resource_group, select_ecosystem,
    Attribute, Ecosystem, GeneratedArtifacts, GroupError, Item, ItemField, ItemKind,
    OwnershipWrapper, TypeRef, Visibility,
};

fn ty(text: &str) -> TypeRef {
    TypeRef { text: text.to_string(), args: Vec::new() }
}

fn generic(text: &str, args: &[&str]) -> TypeRef {
    TypeRef { text: text.to_string(), args: args.iter().map(|a| a.to_string()).collect() }
}

fn plain_attr(text: &str, path: &str) -> Attribute {
    Attribute { text: text.to_string(), path: path.to_string(), value: None }
}

fn name_value(text: &str, path: &str, value: &str) -> Attribute {
    Attribute { text: text.to_string(), path: path.to_string(), value: Some(value.to_string()) }
}

fn field(name: &str, t: TypeRef, attrs: Vec<Attribute>) -> ItemField {
    ItemField { name: Some(name.to_string()), ty: t, attrs }
}

fn record(name: &str, vis: Visibility, fields: Vec<ItemField>) -> Item {
    Item {
        kind: ItemKind::Struct,
        name: name.to_string(),
        vis,
        attrs: Vec::new(),
        generics: String::new(),
        fields,
    }
}

fn test_wrapper() -> OwnershipWrapper {
    ownership_wrapper(Ecosystem::Test)
}

fn usb_item() -> Item {
    let mut item = record(
        "UsbResources",
        Visibility::Restricted("crate".to_string()),
        vec![
            field("dp", ty("PA12"), vec![]),
            field("dm", ty("peripherals::PA11"), vec![]),
            field("usb", ty("USB_OTG_FS"), vec![]),
        ],
    );
    item.attrs.push("#[allow(non_snake_case)]".to_string());
    item
}

fn led_item() -> Item {
    record(
        "LedResources",
        Visibility::Private,
        vec![
            field("r", ty("PA2"), vec![]),
            field("g", ty("PA3"), vec![]),
            field("b", ty("PA4"), vec![]),
            field(
                "tim2",
                ty("TIM2"),
                vec![
                    plain_attr("#[cfg(not(bogus_flag))]", "cfg"),
                    name_value("#[alias = PWMTimer]", "alias", "PWMTimer"),
                ],
            ),
        ],
    )
}

fn no_aliases() -> Option<String> {
    Some("no_aliases".to_string())
}

fn alias_list(a: &GeneratedArtifacts) -> Vec<(String, String)> {
    a.aliases.iter().map(|d| (d.name.clone(), d.target.clone())).collect()
}

fn pairs(v: &[(&str, &str)]) -> Vec<(String, String)> {
    v.iter().map(|(a, b)| (a.to_string(), b.to_string())).collect()
}

#[test]
fn basic() {
    let leds = resource_group(&no_aliases(), &led_item(), &test_wrapper()).unwrap();
    let usb = resource_group(&None, &usb_item(), &test_wrapper()).unwrap();

    let wrapper = &leds.record.wrapper;
    assert_eq!(wrapper.path, "Peri");
    let resources: Vec<&str> = leds.record.fields.iter().map(|f| f.resource.as_str()).collect();
    assert_eq!(resources, vec!["PA2", "PA3", "PA4", "TIM2"]);
    assert_eq!(alias_list(&leds), pairs(&[("PWMTimer", "TIM2")]));
    assert_eq!(leds.record.fields[3].attrs, vec!["#[cfg(not(bogus_flag))]".to_string()]);
    assert_eq!(leds.extractor.entries[3].attrs, vec!["#[cfg(not(bogus_flag))]".to_string()]);

    assert_eq!(
        alias_list(&usb),
        pairs(&[("Dp", "PA12"), ("Dm", "peripherals::PA11"), ("Usb", "USB_OTG_FS")])
    );
    let resources: Vec<&str> = usb.record.fields.iter().map(|f| f.resource.as_str()).collect();
    assert_eq!(resources, vec!["PA12", "peripherals::PA11", "USB_OTG_FS"]);
    assert_eq!(usb.record.attrs, vec!["#[allow(non_snake_case)]".to_string()]);
}

#[test]
fn led_scenario() {
    let a = resource_group(&no_aliases(), &led_item(), &test_wrapper()).unwrap();
    assert_eq!(alias_list(&a), pairs(&[("PWMTimer", "TIM2")]));
    assert_eq!(a.record.name, "LedResources");
    assert_eq!(a.record.fields.len(), 4);
    assert_eq!(a.record.wrapper.scope.as_deref(), Some("static"));
    assert_eq!(a.extractor.name, "led_resources");
    assert_eq!(a.extractor.record, "LedResources");
    let members: Vec<&str> = a.extractor.entries.iter().map(|e| e.member.as_str()).collect();
    assert_eq!(members, vec!["r", "g", "b", "tim2"]);
    let fields: Vec<&str> = a.extractor.entries.iter().map(|e| e.field.as_str()).collect();
    assert_eq!(fields, vec!["r", "g", "b", "tim2"]);
    assert_eq!(a.record.fields[3].resource, a.aliases[0].target);
    assert!(!a.extractor.reexport);
}

#[test]
fn default_aliases_use_class_case() {
    let item = record(
        "UsbResources",
        Visibility::Public,
        vec![field("tim2", ty("TIM2"), vec![]), field("usb_dm", ty("PA11"), vec![])],
    );
    let a = resource_group(&None, &item, &test_wrapper()).unwrap();
    assert_eq!(alias_list(&a), pairs(&[("Tim2", "TIM2"), ("UsbDm", "PA11")]));
    assert_eq!(a.extractor.name, "usb_resources");
}

#[test]
fn default_aliases_follow_field_order() {
    let forward = record(
        "Pins",
        Visibility::Private,
        vec![field("a", ty("PA0"), vec![]), field("b", ty("PB0"), vec![])],
    );
    let backward = record(
        "Pins",
        Visibility::Private,
        vec![field("b", ty("PB0"), vec![]), field("a", ty("PA0"), vec![])],
    );
    let f = resource_group(&None, &forward, &test_wrapper()).unwrap();
    let b = resource_group(&None, &backward, &test_wrapper()).unwrap();
    assert_eq!(alias_list(&f), pairs(&[("A", "PA0"), ("B", "PB0")]));
    assert_eq!(alias_list(&b), pairs(&[("B", "PB0"), ("A", "PA0")]));
}

#[test]
fn generic_field_aliases_its_argument() {
    let item = record(
        "Dma",
        Visibility::Private,
        vec![
            field("ch", generic("Channel<DMA1_CH1>", &["DMA1_CH1"]), vec![]),
            field("pair", generic("Pair<A, B>", &["A", "B"]), vec![]),
        ],
    );
    let a = resource_group(&None, &item, &test_wrapper()).unwrap();
    assert_eq!(alias_list(&a), pairs(&[("Ch", "DMA1_CH1"), ("Pair", "B")]));
    assert_eq!(a.record.fields[0].resource, "Channel<DMA1_CH1>");
}

#[test]
fn custom_alias_replaces_default() {
    let item = record(
        "Timers",
        Visibility::Public,
        vec![
            field("tim2", ty("TIM2"), vec![name_value("#[alias = Pwm]", "alias", "Pwm")]),
            field("tim3", ty("TIM3"), vec![]),
        ],
    );
    let a = resource_group(&None, &item, &test_wrapper()).unwrap();
    assert_eq!(alias_list(&a), pairs(&[("Pwm", "TIM2"), ("Tim3", "TIM3")]));
    assert!(a.record.fields[0].attrs.is_empty());
}

#[test]
fn custom_only_mode_skips_plain_fields() {
    let item = record(
        "Pins",
        Visibility::Private,
        vec![field("a", ty("PA0"), vec![]), field("b", ty("PB0"), vec![])],
    );
    let a = resource_group(&no_aliases(), &item, &test_wrapper()).unwrap();
    assert!(a.aliases.is_empty());
    assert_eq!(a.record.fields.len(), 2);
}

#[test]
fn restricted_visibility_reaches_everything() {
    let a = resource_group(&None, &usb_item(), &test_wrapper()).unwrap();
    let vis = Visibility::Restricted("crate".to_string());
    assert!(a.aliases.iter().all(|d| d.vis == vis));
    assert!(a.record.fields.iter().all(|f| f.vis == vis));
    assert_eq!(a.record.vis, vis);
    assert_eq!(a.extractor.vis, vis);
    assert!(a.extractor.reexport);
}

#[test]
fn public_extractor_is_not_reexported() {
    let mut item = usb_item();
    item.vis = Visibility::Public;
    let a = resource_group(&None, &item, &test_wrapper()).unwrap();
    assert!(!a.extractor.reexport);
    assert_eq!(a.extractor.vis, Visibility::Public);
}

#[test]
fn unknown_mode_is_invalid() {
    let r = resource_group(&Some("aliases".to_string()), &led_item(), &test_wrapper());
    assert_eq!(r.unwrap_err(), GroupError::InvalidInput);
}

#[test]
fn non_struct_is_invalid() {
    let mut item = led_item();
    item.kind = ItemKind::Other;
    let r = resource_group(&None, &item, &test_wrapper());
    assert_eq!(r.unwrap_err(), GroupError::InvalidInput);
}

#[test]
fn tuple_field_is_invalid() {
    let mut item = led_item();
    item.fields.push(ItemField { name: None, ty: ty("PA5"), attrs: Vec::new() });
    let r = resource_group(&None, &item, &test_wrapper());
    assert_eq!(r.unwrap_err(), GroupError::InvalidInput);
}

#[test]
fn alias_that_is_not_an_identifier_is_malformed() {
    let item = record(
        "Timers",
        Visibility::Public,
        vec![field("tim2", ty("TIM2"), vec![name_value("#[alias = a::B]", "alias", "a::B")])],
    );
    let r = resource_group(&None, &item, &test_wrapper());
    assert_eq!(r.unwrap_err(), GroupError::MalformedAlias(0));
}

#[test]
fn two_alias_directives_are_malformed() {
    let item = record(
        "Timers",
        Visibility::Public,
        vec![field("tim1", ty("TIM1"), vec![]), field(
            "tim2",
            ty("TIM2"),
            vec![name_value("#[alias = A]", "alias", "A"), name_value("#[alias = B]", "alias", "B")],
        )],
    );
    let r = resource_group(&None, &item, &test_wrapper());
    assert_eq!(r.unwrap_err(), GroupError::MalformedAlias(1));
}

#[test]
fn other_name_value_attribute_is_kept() {
    let item = record(
        "Timers",
        Visibility::Public,
        vec![field("tim2", ty("TIM2"), vec![name_value("#[doc = \"x\"]", "doc", "\"x\"")])],
    );
    let a = resource_group(&None, &item, &test_wrapper()).unwrap();
    assert_eq!(a.record.fields[0].attrs, vec!["#[doc = \"x\"]".to_string()]);
    assert_eq!(alias_list(&a), pairs(&[("Tim2", "TIM2")]));
}

#[test]
fn duplicate_alias_names_collide() {
    let item = record(
        "Pins",
        Visibility::Public,
        vec![
            field("a", ty("PA0"), vec![name_value("#[alias = Led]", "alias", "Led")]),
            field("b", ty("PB0"), vec![name_value("#[alias = Led]", "alias", "Led")]),
        ],
    );
    let r = resource_group(&None, &item, &test_wrapper());
    assert_eq!(r.unwrap_err(), GroupError::AliasCollision);
}

#[test]
fn custom_alias_colliding_with_derived_name() {
    let item = record(
        "Pins",
        Visibility::Public,
        vec![
            field("a", ty("PA0"), vec![name_value("#[alias = B]", "alias", "B")]),
            field("b", ty("PB0"), vec![]),
        ],
    );
    let r = resource_group(&None, &item, &test_wrapper());
    assert_eq!(r.unwrap_err(), GroupError::AliasCollision);
}

#[test]
fn generate_with_given_names() {
    let item = record(
        "Pins",
        Visibility::Private,
        vec![field("a", ty("PA0"), vec![]), field("b", ty("PB0"), vec![])],
    );
    let def = parse_definition(&None, &item).unwrap();
    let names = vec!["First".to_string(), "Second".to_string()];
    let a = generate(&def, &names, &"pins".to_string(), &test_wrapper()).unwrap();
    assert_eq!(alias_list(&a), pairs(&[("First", "PA0"), ("Second", "PB0")]));
    assert_eq!(a.extractor.name, "pins");

    let bad = vec!["First".to_string(), "9lives".to_string()];
    let r = generate(&def, &bad, &"pins".to_string(), &test_wrapper());
    assert_eq!(r.unwrap_err(), GroupError::MalformedAlias(1));

    let same = vec!["Same".to_string(), "Same".to_string()];
    let r = generate(&def, &same, &"pins".to_string(), &test_wrapper());
    assert_eq!(r.unwrap_err(), GroupError::AliasCollision);

    let r = generate(&def, &names, &"bad name".to_string(), &test_wrapper());
    assert_eq!(r.unwrap_err(), GroupError::InvalidInput);
}

#[test]
fn ecosystem_selection() {
    assert_eq!(select_ecosystem(false, false, false), Err(GroupError::EcosystemConfiguration));
    assert_eq!(select_ecosystem(true, true, false), Err(GroupError::EcosystemConfiguration));
    assert_eq!(select_ecosystem(true, false, true), Err(GroupError::EcosystemConfiguration));
    assert_eq!(select_ecosystem(true, true, true), Err(GroupError::EcosystemConfiguration));
    assert_eq!(select_ecosystem(true, false, false), Ok(Ecosystem::Stm32));
    assert_eq!(select_ecosystem(false, true, false), Ok(Ecosystem::Nrf));
    assert_eq!(select_ecosystem(false, false, true), Ok(Ecosystem::Test));
    assert_eq!(ownership_wrapper(Ecosystem::Stm32).path, "::embassy_stm32::Peri");
    assert_eq!(ownership_wrapper(Ecosystem::Nrf).path, "::embassy_nrf::Peri");
}

#[test]
fn identifiers() {
    assert!(check_ident(&"PWMTimer".to_string()));
    assert!(check_ident(&"_x9".to_string()));
    assert!(!check_ident(&"_".to_string()));
    assert!(!check_ident(&"".to_string()));
    assert!(!check_ident(&"9a".to_string()));
    assert!(!check_ident(&"a-b".to_string()));
}
