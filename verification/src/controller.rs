//! The ownership controller: for each turn boundary it decides whether this
//! host must take or give up the shared address, lays out the exact
//! network-configuration commands for either transition, and folds the
//! per-command results into one outcome. Issuing the commands is the process
//! boundary's job; every decision about them is made and verified here.

use vstd::prelude::*;
use crate::error::SimpleError;
use crate::numfmt::cidr_chars;
use crate::numfmt::cidr_to_dec;
use crate::numfmt::dec_digits;
use crate::numfmt::ipv4_chars;
use crate::numfmt::ipv4_to_dec;
use crate::numfmt::u32_to_dec;
use crate::schedule::Schedule;
use crate::schedule::holds_at;
use crate::schedule::owner_of;
use crate::schedule::turn_of;

verus! {

/// The routing table that holds the policy rules for the shared address.
pub const ROUTING_TABLE_NUMBER: u32 = 123;

/// The decimal rendering of the routing table number.
pub open spec fn table_chars() -> Seq<char> {
    dec_digits(ROUTING_TABLE_NUMBER as nat)
}

/// `ip addr add <ip>/<mask> dev <iface>`
pub open spec fn add_address_cmd(iface: Seq<char>, ip: Seq<u8>, netmask: u8) -> Seq<Seq<char>> {
    seq!["ip"@, "addr"@, "add"@, cidr_chars(ip, netmask), "dev"@, iface]
}

/// `ip addr del <ip>/<mask> dev <iface>`
pub open spec fn del_address_cmd(iface: Seq<char>, ip: Seq<u8>, netmask: u8) -> Seq<Seq<char>> {
    seq!["ip"@, "addr"@, "del"@, cidr_chars(ip, netmask), "dev"@, iface]
}

/// `ip rule add from <ip> lookup <table>`
pub open spec fn add_rule_from_cmd(ip: Seq<u8>) -> Seq<Seq<char>> {
    seq!["ip"@, "rule"@, "add"@, "from"@, ipv4_chars(ip), "lookup"@, table_chars()]
}

/// `ip rule del from <ip> lookup <table>`
pub open spec fn del_rule_from_cmd(ip: Seq<u8>) -> Seq<Seq<char>> {
    seq!["ip"@, "rule"@, "del"@, "from"@, ipv4_chars(ip), "lookup"@, table_chars()]
}

/// `ip rule add to <ip> lookup <table>`
pub open spec fn add_rule_to_cmd(ip: Seq<u8>) -> Seq<Seq<char>> {
    seq!["ip"@, "rule"@, "add"@, "to"@, ipv4_chars(ip), "lookup"@, table_chars()]
}

/// `ip rule del to <ip> lookup <table>`
pub open spec fn del_rule_to_cmd(ip: Seq<u8>) -> Seq<Seq<char>> {
    seq!["ip"@, "rule"@, "del"@, "to"@, ipv4_chars(ip), "lookup"@, table_chars()]
}

/// `ip rule add default via <gateway> dev <iface> table <table>`
pub open spec fn add_default_route_cmd(iface: Seq<char>, gateway: Seq<u8>) -> Seq<Seq<char>> {
    seq![
        "ip"@,
        "rule"@,
        "add"@,
        "default"@,
        "via"@,
        ipv4_chars(gateway),
        "dev"@,
        iface,
        "table"@,
        table_chars(),
    ]
}

/// `ip rule del default via <gateway> dev <iface> table <table>`
pub open spec fn del_default_route_cmd(iface: Seq<char>, gateway: Seq<u8>) -> Seq<Seq<char>> {
    seq![
        "ip"@,
        "rule"@,
        "del"@,
        "default"@,
        "via"@,
        ipv4_chars(gateway),
        "dev"@,
        iface,
        "table"@,
        table_chars(),
    ]
}

/// The four commands of a take, in issue order: bind the address, route
/// traffic from it and to it through the dedicated table, and give that
/// table its default route via the gateway.
pub open spec fn take_plan_spec(
    iface: Seq<char>,
    ip: Seq<u8>,
    netmask: u8,
    gateway: Seq<u8>,
) -> Seq<Seq<Seq<char>>> {
    seq![
        add_address_cmd(iface, ip, netmask),
        add_rule_from_cmd(ip),
        add_rule_to_cmd(ip),
        add_default_route_cmd(iface, gateway),
    ]
}

/// The four commands of a give-up, in issue order: the reversals of the take
/// commands, default route first, address last. The plan never depends on
/// what is currently bound: all four deletions are always attempted.
pub open spec fn give_up_plan_spec(
    iface: Seq<char>,
    ip: Seq<u8>,
    netmask: u8,
    gateway: Seq<u8>,
) -> Seq<Seq<Seq<char>>> {
    seq![
        del_default_route_cmd(iface, gateway),
        del_rule_to_cmd(ip),
        del_rule_from_cmd(ip),
        del_address_cmd(iface, ip, netmask),
    ]
}

/// Builds the take commands for the configured address, netmask, gateway and
/// interface.
pub fn take_plan(iface: &str, ip: &[u8; 4], netmask: u8, gateway: &[u8; 4]) -> (r: Vec<Vec<String>>)
    ensures
        r.deep_view() == take_plan_spec(iface@, ip@, netmask, gateway@),
{
    let table = u32_to_dec(ROUTING_TABLE_NUMBER);
    let c0: Vec<String> = vec![
        "ip".to_owned(),
        "addr".to_owned(),
        "add".to_owned(),
        cidr_to_dec(ip, netmask),
        "dev".to_owned(),
        iface.to_owned(),
    ];
    let c1: Vec<String> = vec![
        "ip".to_owned(),
        "rule".to_owned(),
        "add".to_owned(),
        "from".to_owned(),
        ipv4_to_dec(ip),
        "lookup".to_owned(),
        table.clone(),
    ];
    let c2: Vec<String> = vec![
        "ip".to_owned(),
        "rule".to_owned(),
        "add".to_owned(),
        "to".to_owned(),
        ipv4_to_dec(ip),
        "lookup".to_owned(),
        table.clone(),
    ];
    let c3: Vec<String> = vec![
        "ip".to_owned(),
        "rule".to_owned(),
        "add".to_owned(),
        "default".to_owned(),
        "via".to_owned(),
        ipv4_to_dec(gateway),
        "dev".to_owned(),
        iface.to_owned(),
        "table".to_owned(),
        table,
    ];
    let r: Vec<Vec<String>> = vec![c0, c1, c2, c3];
    proof {
        assert(r@[0].deep_view() =~= add_address_cmd(iface@, ip@, netmask));
        assert(r@[1].deep_view() =~= add_rule_from_cmd(ip@));
        assert(r@[2].deep_view() =~= add_rule_to_cmd(ip@));
        assert(r@[3].deep_view() =~= add_default_route_cmd(iface@, gateway@));
        assert(r.deep_view() =~~= take_plan_spec(iface@, ip@, netmask, gateway@));
    }
    r
}

/// Builds the give-up commands for the configured address, netmask, gateway
/// and interface. The plan is the same whether or not a binding exists.
pub fn give_up_plan(iface: &str, ip: &[u8; 4], netmask: u8, gateway: &[u8; 4]) -> (r: Vec<
    Vec<String>,
>)
    ensures
        r.deep_view() == give_up_plan_spec(iface@, ip@, netmask, gateway@),
        r@.len() == 4,
{
    let table = u32_to_dec(ROUTING_TABLE_NUMBER);
    let c0: Vec<String> = vec![
        "ip".to_owned(),
        "rule".to_owned(),
        "del".to_owned(),
        "default".to_owned(),
        "via".to_owned(),
        ipv4_to_dec(gateway),
        "dev".to_owned(),
        iface.to_owned(),
        "table".to_owned(),
        table.clone(),
    ];
    let c1: Vec<String> = vec![
        "ip".to_owned(),
        "rule".to_owned(),
        "del".to_owned(),
        "to".to_owned(),
        ipv4_to_dec(ip),
        "lookup".to_owned(),
        table.clone(),
    ];
    let c2: Vec<String> = vec![
        "ip".to_owned(),
        "rule".to_owned(),
        "del".to_owned(),
        "from".to_owned(),
        ipv4_to_dec(ip),
        "lookup".to_owned(),
        table,
    ];
    let c3: Vec<String> = vec![
        "ip".to_owned(),
        "addr".to_owned(),
        "del".to_owned(),
        cidr_to_dec(ip, netmask),
        "dev".to_owned(),
        iface.to_owned(),
    ];
    let r: Vec<Vec<String>> = vec![c0, c1, c2, c3];
    proof {
        assert(r@[0].deep_view() =~= del_default_route_cmd(iface@, gateway@));
        assert(r@[1].deep_view() =~= del_rule_to_cmd(ip@));
        assert(r@[2].deep_view() =~= del_rule_from_cmd(ip@));
        assert(r@[3].deep_view() =~= del_address_cmd(iface@, ip@, netmask));
        assert(r.deep_view() =~~= give_up_plan_spec(iface@, ip@, netmask, gateway@));
    }
    r
}

/// The outcome that `first_error` reports for a sequence of step results:
/// success when every step succeeded, else the error of the earliest step
/// that failed.
pub open spec fn spec_first_error(rs: Seq<Result<(), SimpleError>>) -> Result<(), SimpleError>
    decreases rs.len(),
{
    if rs.len() == 0 {
        Ok(())
    } else {
        match rs[0] {
            Err(e) => Err(e),
            Ok(u) => spec_first_error(rs.skip(1)),
        }
    }
}

/// Folds the results of the steps of one transition into one outcome. Every
/// step was already attempted by the time this runs; the fold only decides
/// what to report: the first failure, or success when there was none.
pub fn first_error(results: Vec<Result<(), SimpleError>>) -> (r: Result<(), SimpleError>)
    ensures
        r == spec_first_error(results@),
{
    let ghost rs = results@;
    let mut rest = results;
    let mut acc: Result<(), SimpleError> = Ok(());
    proof {
        assert(rs.subrange(0, rs.len() as int) =~= rs);
        assert(rs.skip(rs.len() as int) =~= Seq::<Result<(), SimpleError>>::empty());
    }
    while rest.len() > 0
        invariant
            rest@.len() <= rs.len(),
            rest@ == rs.subrange(0, rest@.len() as int),
            acc == spec_first_error(rs.skip(rest@.len() as int)),
        decreases rest@.len(),
    {
        let ghost n = rest@.len() as int;
        let last = rest.pop().unwrap();
        proof {
            assert(rest@ =~= rs.subrange(0, n - 1));
            assert(rs.skip(n - 1)[0] == rs[n - 1]);
            assert(rs.skip(n - 1).skip(1) =~= rs.skip(n));
        }
        match last {
            Err(e) => {
                acc = Err(e);
            },
            Ok(u) => {},
        }
    }
    proof {
        assert(rs.skip(0) =~= rs);
    }
    acc
}

/// Giving up is idempotent in the steps it attempts: the give-up plan holds
/// all four reversal steps, in fixed order, whatever is currently bound —
/// the plan is a function of the configuration alone, so a give-up issued
/// when no binding exists attempts exactly the same four deletions, and each
/// step's "not found" failure is collected rather than cutting the sequence
/// short (`first_error` folds the results only after every step ran).
pub proof fn lemma_give_up_attempts_every_step(
    iface: Seq<char>,
    ip: Seq<u8>,
    netmask: u8,
    gateway: Seq<u8>,
)
    ensures
        give_up_plan_spec(iface, ip, netmask, gateway).len() == 4,
        give_up_plan_spec(iface, ip, netmask, gateway)[0] == del_default_route_cmd(iface, gateway),
        give_up_plan_spec(iface, ip, netmask, gateway)[1] == del_rule_to_cmd(ip),
        give_up_plan_spec(iface, ip, netmask, gateway)[2] == del_rule_from_cmd(ip),
        give_up_plan_spec(iface, ip, netmask, gateway)[3] == del_address_cmd(iface, ip, netmask),
{
}

/// The fold reports success exactly when every step succeeded.
pub proof fn lemma_first_error_ok_iff(rs: Seq<Result<(), SimpleError>>)
    ensures
        spec_first_error(rs) is Ok <==> (forall|i: int| 0 <= i < rs.len() ==> rs[i] is Ok),
    decreases rs.len(),
{
    if rs.len() > 0 {
        lemma_first_error_ok_iff(rs.skip(1));
        assert(forall|i: int| 1 <= i < rs.len() ==> rs[i] == rs.skip(1)[i - 1]);
    }
}

/// What the controller does at one turn boundary.
#[derive(Debug, PartialEq, Eq, Structural)]
pub enum TurnAction {
    /// This host owns the coming turn: issue the take commands, and only
    /// then decide the flag from their outcome.
    Take,
    /// Another host owns it: flip the flag false first, then issue the
    /// give-up commands.
    GiveUp,
}

/// One turn-boundary evaluation: the derived turn and owner, the action the
/// controller must perform, the flag value to publish before any command is
/// issued, and how long to sleep before the next evaluation.
pub struct TurnEval {
    pub turn_number: u64,
    pub owner_index: u64,
    pub action: TurnAction,
    /// `Some(false)` on a give-up: the flag drops before the deletions are
    /// issued, so the announcer sees the change promptly. `None` on a take:
    /// the flag moves only once the outcome is known (`after_take`).
    pub flag_before_commands: Option<bool>,
    pub sleep_ms: u64,
}

/// Evaluates the schedule at time `t_ms`: who owns the coming turn, whether
/// this host must take or give up the address, and the sleep that lands the
/// next evaluation just past the next boundary (`epsilon_ms` pushes it over).
pub fn evaluate_turn(s: &Schedule, t_ms: u64, epsilon_ms: u64) -> (r: TurnEval)
    requires
        s.wf(),
        s.turn_duration_ms + epsilon_ms <= u64::MAX,
    ensures
        r.turn_number == turn_of(t_ms as int, s.turn_duration_ms as int),
        r.owner_index == owner_of(
            t_ms as int,
            s.turn_duration_ms as int,
            s.total_participants as int,
        ),
        r.owner_index < s.total_participants,
        r.action == (if holds_at(
            t_ms as int,
            s.turn_duration_ms as int,
            s.total_participants as int,
            s.local_index as int,
        ) {
            TurnAction::Take
        } else {
            TurnAction::GiveUp
        }),
        r.sleep_ms == s.turn_duration_ms - t_ms as int % s.turn_duration_ms as int + epsilon_ms,
        r.flag_before_commands == (if r.action is GiveUp {
            Some(false)
        } else {
            None::<bool>
        }),
{
    let turn_number = s.turn_number(t_ms);
    let owner_index = s.owner_index(t_ms);
    let (action, flag_before_commands) = if s.is_local_turn(t_ms) {
        (TurnAction::Take, None)
    } else {
        (TurnAction::GiveUp, Some(false))
    };
    let sleep_ms = s.remaining_ms(t_ms) + epsilon_ms;
    TurnEval { turn_number, owner_index, action, flag_before_commands, sleep_ms }
}

/// The controller's decision once the take commands have reported back: the
/// ownership flag is raised, and an announcer is spawned, exactly when the
/// whole take succeeded. After a failed take the host stays unheld and
/// retries only at a later turn boundary that schedules it again.
pub struct TakeOutcome {
    pub flag: bool,
    pub spawn_announcer: bool,
}

pub fn after_take(take_succeeded: bool) -> (r: TakeOutcome)
    ensures
        r.flag == take_succeeded,
        r.spawn_announcer == take_succeeded,
{
    TakeOutcome { flag: take_succeeded, spawn_announcer: take_succeeded }
}

} // verus!
