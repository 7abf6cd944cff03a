use psm::constant::{candidate_regions, InstanceType, Region, ServiceInstanceType};
use psm::cvm_utils::{
    find_cheapest, poll_address, price_queries, workload_security_groups, AddressPoll,
    InstanceStatus, PollPolicy, Price, PriceQuery, PriceResult, SecurityGroup,
};
use psm::error::PSMError;

fn result(region: Region, zone: &str, t: InstanceType, price: Option<u64>) -> PriceResult {
    PriceResult {
        query: PriceQuery { region, zone: zone.to_string(), instance_type: t },
        price: price.map(|p| Price { instance_price: p, bandwidth_price: 1 }),
    }
}

#[test]
fn cheapest_is_lowest_price_first_seen_on_tie() {
    let results = vec![
        result(Region::Guangzhou, "A-1", InstanceType::SA2Large16, Some(10)),
        result(Region::Nanjing, "B-1", InstanceType::SA3Large16, Some(5)),
        result(Region::Shanghai, "C-1", InstanceType::SA2Large8, Some(5)),
    ];
    let q = find_cheapest(&results).unwrap();
    assert_eq!(q.region, Region::Nanjing);
    assert_eq!(q.instance_type, InstanceType::SA3Large16);
    assert_eq!(q.zone, "B-1");
    assert_eq!(q.price.instance_price, 5);
}

#[test]
fn failed_queries_are_skipped() {
    let results = vec![
        result(Region::Guangzhou, "A-1", InstanceType::SA2Large16, None),
        result(Region::Nanjing, "B-1", InstanceType::SA3Large16, Some(7)),
        result(Region::Shanghai, "C-1", InstanceType::SA2Large8, None),
    ];
    assert_eq!(find_cheapest(&results).unwrap().zone, "B-1");
}

#[test]
fn all_queries_failing_is_no_available_instance() {
    let results = vec![
        result(Region::Guangzhou, "A-1", InstanceType::SA2Large16, None),
        result(Region::Nanjing, "B-1", InstanceType::SA3Large16, None),
    ];
    assert_eq!(find_cheapest(&results), Err(PSMError::NoAvailableInstance));
    assert_eq!(find_cheapest(&vec![]), Err(PSMError::NoAvailableInstance));
}

#[test]
fn price_queries_cross_zones_and_types_region_by_region() {
    let zones = vec![
        (Region::Guangzhou, vec!["gz-1".to_string(), "gz-2".to_string()]),
        (Region::Nanjing, vec![]),
        (Region::Shanghai, vec!["sh-1".to_string()]),
    ];
    let types = vec![InstanceType::SA2Large16, InstanceType::SA3Large16];
    let q = price_queries(&zones, &types);
    let got: Vec<(Region, &str, InstanceType)> =
        q.iter().map(|q| (q.region, q.zone.as_str(), q.instance_type)).collect();
    assert_eq!(
        got,
        vec![
            (Region::Guangzhou, "gz-1", InstanceType::SA2Large16),
            (Region::Guangzhou, "gz-1", InstanceType::SA3Large16),
            (Region::Guangzhou, "gz-2", InstanceType::SA2Large16),
            (Region::Guangzhou, "gz-2", InstanceType::SA3Large16),
            (Region::Shanghai, "sh-1", InstanceType::SA2Large16),
            (Region::Shanghai, "sh-1", InstanceType::SA3Large16),
        ]
    );
    assert!(price_queries(&zones, &vec![]).is_empty());
}

#[test]
fn classes_and_types() {
    assert_eq!(ServiceInstanceType::from_name("4C16G"), Ok(ServiceInstanceType::T4C16G));
    assert_eq!(ServiceInstanceType::from_name("2c2g"), Ok(ServiceInstanceType::T2C2G));
    assert_eq!(ServiceInstanceType::from_name("4c16"), Err(PSMError::InvalidInstanceType));
    assert_eq!(
        ServiceInstanceType::T4C32G.to_list(),
        vec![InstanceType::MA3Large32, InstanceType::MA2Large32]
    );
    assert_eq!(InstanceType::SA22Xlarge32.code(), "SA2.2XLARGE32");
    assert_eq!(Region::from_code("ap-nanjing"), Some(Region::Nanjing));
    assert_eq!(Region::from_code("ap-mars"), None);
    assert_eq!(Region::Hongkong.code(), "ap-hongkong");
    assert_eq!(candidate_regions(), vec![Region::Guangzhou, Region::Nanjing, Region::Shanghai]);
}

fn inst(id: &str, running: bool, ips: Option<Vec<&str>>) -> InstanceStatus {
    InstanceStatus {
        instance_id: id.to_string(),
        running,
        public_ips: ips.map(|v| v.into_iter().map(|s| s.to_string()).collect()),
    }
}

#[test]
fn address_poll_decisions() {
    let policy = PollPolicy::instance_ready();
    assert_eq!(policy, PollPolicy { timeout_secs: 62, interval_secs: 5 });
    let insts = vec![
        inst("ins-1", false, None),
        inst("ins-2", true, Some(vec!["9.9.9.9"])),
        inst("ins-1", true, Some(vec!["1.1.1.1", "2.2.2.2"])),
    ];
    assert_eq!(poll_address(&insts, "ins-1", 0, &policy), AddressPoll::Ready("1.1.1.1".to_string()));
    assert_eq!(poll_address(&insts, "ins-3", 10, &policy), AddressPoll::Wait(5));
    assert_eq!(poll_address(&insts, "ins-3", 62, &policy), AddressPoll::Failed(PSMError::Timeout));
    let no_ip = vec![inst("ins-1", true, Some(vec![]))];
    assert_eq!(
        poll_address(&no_ip, "ins-1", 0, &policy),
        AddressPoll::Failed(PSMError::NoPublicAddress)
    );
}

#[test]
fn tagged_security_groups_only() {
    let groups = vec![
        SecurityGroup { security_group_id: "sg-1".into(), security_group_name: "default".into() },
        SecurityGroup { security_group_id: "sg-2".into(), security_group_name: "My-PalWorld-sg".into() },
        SecurityGroup { security_group_id: "sg-3".into(), security_group_name: "palworld".into() },
        SecurityGroup { security_group_id: "sg-4".into(), security_group_name: "palwor".into() },
    ];
    assert_eq!(workload_security_groups(&groups), vec!["sg-2".to_string(), "sg-3".to_string()]);
}
