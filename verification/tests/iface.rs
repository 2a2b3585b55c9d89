use ip_juggler::iface::select_base_interface;
use ip_juggler::iface::str_lex_le;
use ip_juggler::iface::vlan_interface_name;
use ip_juggler::iface::vlan_plan;

fn names(list: &[&str]) -> Vec<String> {
    list.iter().map(|n| n.to_string()).collect()
}

#[test]
fn picks_the_least_matching_interface_name() {
    let all = names(&["lo", "enp3s0", "docker0", "enp1s0", "enp2s1"]);
    let k = select_base_interface("enp[0-9]*s0", &all).unwrap().unwrap();
    assert_eq!(all[k], "enp1s0");
}

#[test]
fn matching_is_real_regex_matching() {
    let all = names(&["ens5", "enp10s0"]);
    // "[0-9]*" must match a run of digits, not the literal characters.
    let k = select_base_interface("enp[0-9]*s0", &all).unwrap().unwrap();
    assert_eq!(all[k], "enp10s0");
    // A pattern that matches none of the names finds nothing.
    assert_eq!(select_base_interface("^wlan[0-9]$", &all).unwrap(), None);
    // An unanchored pattern matches anywhere in the name.
    let j = select_base_interface("s5", &all).unwrap().unwrap();
    assert_eq!(all[j], "ens5");
}

#[test]
fn invalid_pattern_is_an_error() {
    let all = names(&["enp1s0"]);
    assert!(select_base_interface("enp[0-9", &all).is_err());
    assert!(select_base_interface("(", &all).is_err());
}

#[test]
fn lexicographic_order_on_names() {
    assert!(str_lex_le("abc", "abd"));
    assert!(!str_lex_le("abd", "abc"));
    assert!(str_lex_le("ab", "abc"));
    assert!(!str_lex_le("abc", "ab"));
    assert!(str_lex_le("", "a"));
    assert!(str_lex_le("enp1s0", "enp1s0"));
    assert!(str_lex_le("enp1s0", "enp3s0"));
}

#[test]
fn vlan_name_is_base_dot_number() {
    assert_eq!(vlan_interface_name("enp1s0", 4000), "enp1s0.4000");
    assert_eq!(vlan_interface_name("eth0", 1), "eth0.1");
}

#[test]
fn vlan_plan_lays_out_the_link_commands() {
    let plan = vlan_plan("enp1s0", 4000, 1400);
    let s = |v: &[&str]| v.iter().map(|w| w.to_string()).collect::<Vec<String>>();
    assert_eq!(plan.delete_existing, s(&["ip", "link", "del", "enp1s0.4000"]));
    assert_eq!(
        plan.create,
        s(&[
            "ip", "link", "add", "link", "enp1s0", "name", "enp1s0.4000", "type", "vlan", "id",
            "4000"
        ])
    );
    assert_eq!(
        plan.set_mtu,
        s(&["ip", "link", "set", "enp1s0.4000", "mtu", "1400"])
    );
    assert_eq!(
        plan.bring_up,
        s(&["ip", "link", "set", "dev", "enp1s0.4000", "up"])
    );
}
