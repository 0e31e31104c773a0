//! The nftables backend.
//!
//! The backend keeps one table of the family inet with one set and one chain. In the
//! language of nft they are
//!
//! ```text
//! table inet fwknox {
//!     set fwknox_allow_v4 {
//!         type ipv4_addr . inet_proto . inet_service
//!         flags timeout
//!     }
//!     chain input {
//!         type filter hook input priority 0; policy accept;
//!         ip saddr . meta l4proto . th dport @fwknox_allow_v4 accept
//!     }
//! }
//! ```
//!
//! Installing a rule adds one element to the set for each port. An element has a
//! timeout, after which the kernel removes it.

use crate::firewall::backend::FirewallBackend;
use crate::firewall::error::{FirewallError, FirewallErrorView};
use crate::firewall::rule::{AccessRule, RuleHandle};
use crate::net;
use crate::net::IpAddr;
use crate::proto::types;
use crate::proto::types::{PortProto, Protocol};
use crate::text;
use nftables::batch::Batch;
use nftables::expr::{
    Elem, Expression, Meta, MetaKey, NamedExpression, Payload, PayloadField,
};
use nftables::schema::{
    Chain, Element, NfListObject, Nftables, Rule, SetFlag, SetType, SetTypeValue, Table,
};
use nftables::stmt::{Match, Operator, Statement};
use nftables::types::{NfChainPolicy, NfChainType, NfFamily, NfHook};
use vstd::prelude::*;

verus! {

/// The name of the table.
pub const TABLE_NAME: &'static str = "fwknox";

/// The name of the set in the table.
pub const SET_NAME: &'static str = "fwknox_allow_v4";

/// The name of the chain that looks into the set.
pub const CHAIN_NAME: &'static str = "input";

/// A batch of commands of the crate `nftables`.
#[verifier::external_type_specification]
#[verifier::external_body]
pub struct ExBatch<'a>(nftables::batch::Batch<'a>);

/// A ruleset of the crate `nftables`: the commands of a batch, ready to be applied.
#[verifier::external_type_specification]
#[verifier::external_body]
pub struct ExNftables<'a>(nftables::schema::Nftables<'a>);

/// A rule of the crate `nftables`: its place in a chain and its statements.
#[verifier::external_type_specification]
#[verifier::external_body]
pub struct ExRule<'a>(nftables::schema::Rule<'a>);

/// The family of packets that a table is for.
#[derive(Clone, Copy, Debug, PartialEq, Eq, Structural)]
pub enum Family {
    /// IPv4 and IPv6.
    Inet,
    /// IPv4.
    Ip,
}

/// The type of a part of a set's elements.
#[derive(Clone, Copy, Debug, PartialEq, Eq, Structural)]
pub enum SetKey {
    /// An IPv4 address.
    Ipv4Addr,
    /// A transport protocol.
    InetProto,
    /// A port.
    InetService,
}

/// A property of a set.
#[derive(Clone, Copy, Debug, PartialEq, Eq, Structural)]
pub enum SetOption {
    /// Its elements may have timeouts.
    Timeout,
    /// Its elements may be intervals.
    Interval,
}

/// What a chain is for.
#[derive(Clone, Copy, Debug, PartialEq, Eq, Structural)]
pub enum ChainKind {
    /// Filtering packets.
    Filter,
    /// Translating addresses.
    Nat,
}

/// Where packets enter a chain.
#[derive(Clone, Copy, Debug, PartialEq, Eq, Structural)]
pub enum ChainHook {
    /// On their way to this host.
    Input,
    /// On their way out of this host.
    Output,
}

/// What becomes of a packet that no rule of a chain decides on.
#[derive(Clone, Copy, Debug, PartialEq, Eq, Structural)]
pub enum ChainPolicy {
    /// It passes.
    Accept,
    /// It is dropped.
    Drop,
}

/// A property of a packet that is not in its headers.
#[derive(Clone, Copy, Debug, PartialEq, Eq, Structural)]
pub enum MetaField {
    /// The transport protocol.
    L4proto,
    /// The family.
    Nfproto,
}

/// How a rule compares.
#[derive(Clone, Copy, Debug, PartialEq, Eq, Structural)]
pub enum MatchOp {
    /// Whether the left side is in the right side.
    In,
    /// Whether both sides are equal.
    Eq,
}

/// A part of what a rule looks at.
#[derive(Clone, Copy, Debug)]
pub enum RulePart {
    /// A field of the header of a protocol.
    Field {
        /// The protocol.
        protocol: &'static str,
        /// The field.
        field: &'static str,
    },
    /// A property that is not in the headers.
    Meta(MetaField),
}

/// The model of a [`RulePart`].
#[verifier::ext_equal]
pub enum RulePartView {
    /// See [`RulePart::Field`].
    Field {
        /// The protocol.
        protocol: Seq<char>,
        /// The field.
        field: Seq<char>,
    },
    /// See [`RulePart::Meta`].
    Meta(MetaField),
}

impl View for RulePart {
    type V = RulePartView;

    open spec fn view(&self) -> RulePartView {
        match *self {
            RulePart::Field { protocol, field } => RulePartView::Field {
                protocol: protocol@,
                field: field@,
            },
            RulePart::Meta(key) => RulePartView::Meta(key),
        }
    }
}

/// The model of parts.
pub open spec fn rule_parts(parts: Seq<RulePart>) -> Seq<RulePartView> {
    parts.map_values(|p: RulePart| p@)
}

/// A statement of a rule. A packet goes on to the next one only where a comparison
/// holds of it.
#[verifier::ext_equal]
pub enum RuleStep {
    /// Compares parts of the packet, taken together, with a text.
    Match {
        /// The parts.
        left: Seq<RulePartView>,
        /// How they are compared.
        op: MatchOp,
        /// The text, which with `@` before it is the name of a set.
        right: Seq<char>,
    },
    /// Lets the packet pass.
    Accept,
}

/// Where a rule stands.
#[verifier::ext_equal]
pub struct RulePlace {
    /// The family of the table that holds the chain.
    pub family: Family,
    /// The table.
    pub table: Seq<char>,
    /// The chain.
    pub chain: Seq<char>,
}

/// The statements of a rule, in their order.
pub uninterp spec fn rule_steps(rule: Rule<'static>) -> Seq<RuleStep>;

/// Where a rule stands.
pub uninterp spec fn rule_place(rule: Rule<'static>) -> RulePlace;

/// A part of an element of a set.
#[derive(Debug)]
pub enum KeyPart {
    /// A text.
    Text(String),
    /// A number.
    Number(u32),
}

/// The model of a [`KeyPart`].
#[verifier::ext_equal]
pub enum KeyPartView {
    /// See [`KeyPart::Text`].
    Text(Seq<char>),
    /// See [`KeyPart::Number`].
    Number(u32),
}

impl View for KeyPart {
    type V = KeyPartView;

    open spec fn view(&self) -> KeyPartView {
        match *self {
            KeyPart::Text(s) => KeyPartView::Text(s@),
            KeyPart::Number(n) => KeyPartView::Number(n),
        }
    }
}

/// The model of the parts of an element.
pub open spec fn key_parts(key: Seq<KeyPart>) -> Seq<KeyPartView> {
    key.map_values(|p: KeyPart| p@)
}

/// A command to nftables.
#[verifier::ext_equal]
pub enum NftCommand {
    /// Adds a table.
    AddTable {
        /// Its family.
        family: Family,
        /// Its name.
        name: Seq<char>,
    },
    /// Adds a set.
    AddSet {
        /// The family of the table that holds the set.
        family: Family,
        /// The table.
        table: Seq<char>,
        /// Its name.
        name: Seq<char>,
        /// The types of the parts of an element.
        key: Seq<SetKey>,
        /// Its properties.
        flags: Set<SetOption>,
    },
    /// Adds a chain.
    AddChain {
        /// The family of the table that holds the chain.
        family: Family,
        /// The table.
        table: Seq<char>,
        /// Its name.
        name: Seq<char>,
        /// What it is for.
        kind: ChainKind,
        /// Where packets enter it.
        hook: ChainHook,
        /// Its priority.
        prio: i32,
        /// What becomes of a packet that no rule decides on.
        policy: ChainPolicy,
    },
    /// Adds a rule at the end of a chain.
    AddRule {
        /// Where it stands.
        place: RulePlace,
        /// Its statements, in their order.
        steps: Seq<RuleStep>,
    },
    /// Adds an element to a set.
    AddElement {
        /// The family of the table that holds the set.
        family: Family,
        /// The table.
        table: Seq<char>,
        /// The set.
        set: Seq<char>,
        /// The parts of the element, in their order.
        key: Seq<KeyPartView>,
        /// After how many seconds the element goes away.
        timeout: u32,
    },
    /// Deletes an element from a set.
    DeleteElement {
        /// The family of the table that holds the set.
        family: Family,
        /// The table.
        table: Seq<char>,
        /// The set.
        set: Seq<char>,
        /// The parts of the element, in their order.
        key: Seq<KeyPartView>,
    },
    /// Deletes a table with all that it holds.
    DeleteTable {
        /// Its family.
        family: Family,
        /// Its name.
        name: Seq<char>,
    },
}

/// The commands in a batch, in their order.
pub uninterp spec fn batch_commands(batch: Batch<'static>) -> Seq<NftCommand>;

/// The commands in a ruleset, in their order.
pub uninterp spec fn ruleset_commands(ruleset: Nftables<'static>) -> Seq<NftCommand>;

/// `nftables::batch::Batch::new`: a batch without commands.
#[verifier::external_body]
fn new_batch() -> (r: Batch<'static>)
    ensures
        batch_commands(r) == Seq::<NftCommand>::empty(),
{
    Batch::new()
}

/// `nftables::batch::Batch::to_nftables`: the commands of a batch as a ruleset.
#[verifier::external_body]
fn batch_ruleset(batch: Batch<'static>) -> (r: Nftables<'static>)
    ensures
        ruleset_commands(r) == batch_commands(batch),
{
    batch.to_nftables()
}

/// `nftables::batch::Batch::add` with a table: the command comes last.
#[verifier::external_body]
fn add_table(batch: &mut Batch<'static>, family: Family, name: &str)
    ensures
        batch_commands(*final(batch)) == batch_commands(*old(batch)).push(
            NftCommand::AddTable { family, name: name@ },
        ),
{
    let family = match family { Family::Inet => NfFamily::INet, Family::Ip => NfFamily::IP };
    batch.add(NfListObject::Table(Table { family, name: name.to_owned().into(), handle: None }));
}

/// `nftables::batch::Batch::add` with a set: the command comes last.
#[verifier::external_body]
fn add_set(
    batch: &mut Batch<'static>,
    family: Family,
    table: &'static str,
    name: &'static str,
    key: &Vec<SetKey>,
    flags: &Vec<SetOption>,
)
    ensures
        batch_commands(*final(batch)) == batch_commands(*old(batch)).push(
            NftCommand::AddSet {
                family,
                table: table@,
                name: name@,
                key: key@,
                flags: flags@.to_set(),
            },
        ),
{
    let key = key.iter().map(|k| match k {
        SetKey::Ipv4Addr => SetType::Ipv4Addr,
        SetKey::InetProto => SetType::InetProto,
        SetKey::InetService => SetType::InetService,
    });
    let flags = flags.iter().map(|f| match f {
        SetOption::Timeout => SetFlag::Timeout,
        SetOption::Interval => SetFlag::Interval,
    });
    let family = match family { Family::Inet => NfFamily::INet, Family::Ip => NfFamily::IP };
    let (set_type, flags) = (SetTypeValue::Concatenated(key.collect()), Some(flags.collect()));
    batch.add(NfListObject::Set(Box::new(nftables::schema::Set {
        family, table: table.into(), name: name.into(), set_type, flags, ..Default::default()
    })));
}

/// `nftables::batch::Batch::add` with a chain: the command comes last.
#[verifier::external_body]
fn add_chain(
    batch: &mut Batch<'static>,
    family: Family,
    table: &'static str,
    name: &'static str,
    kind: ChainKind,
    hook: ChainHook,
    prio: i32,
    policy: ChainPolicy,
)
    ensures
        batch_commands(*final(batch)) == batch_commands(*old(batch)).push(
            NftCommand::AddChain { family, table: table@, name: name@, kind, hook, prio, policy },
        ),
{
    let family = match family { Family::Inet => NfFamily::INet, Family::Ip => NfFamily::IP };
    let kind = match kind {
        ChainKind::Filter => NfChainType::Filter,
        ChainKind::Nat => NfChainType::NAT,
    };
    let hook = match hook { ChainHook::Input => NfHook::Input, ChainHook::Output => NfHook::Output };
    let policy = match policy {
        ChainPolicy::Accept => NfChainPolicy::Accept,
        ChainPolicy::Drop => NfChainPolicy::Drop,
    };
    let (table, name) = (table.into(), name.into());
    let (_type, hook, prio, policy) = (Some(kind), Some(hook), Some(prio), Some(policy));
    let chain = Chain { family, table, name, _type, hook, prio, policy, ..Default::default() };
    batch.add(NfListObject::Chain(chain));
}

/// `nftables::schema::Rule`: a rule of a chain without statements.
#[verifier::external_body]
fn new_rule(family: Family, table: &'static str, chain: &'static str) -> (r: Rule<'static>)
    ensures
        rule_place(r) == (RulePlace { family, table: table@, chain: chain@ }),
        rule_steps(r) == Seq::<RuleStep>::empty(),
{
    let family = match family { Family::Inet => NfFamily::INet, Family::Ip => NfFamily::IP };
    Rule { family, table: table.into(), chain: chain.into(), ..Default::default() }
}

/// `Vec::push` on the statements of a `nftables::schema::Rule`, with a
/// `nftables::stmt::Match` of a concatenation and a text: the statement comes last.
#[verifier::external_body]
fn push_match(rule: &mut Rule<'static>, left: Vec<RulePart>, op: MatchOp, right: String)
    ensures
        rule_place(*final(rule)) == rule_place(*old(rule)),
        rule_steps(*final(rule)) == rule_steps(*old(rule)).push(
            RuleStep::Match { left: rule_parts(left@), op, right: right@ },
        ),
{
    let left = left.into_iter().map(|p| Expression::Named(match p {
        RulePart::Field { protocol, field } => NamedExpression::Payload(Payload::PayloadField(
            PayloadField { protocol: protocol.into(), field: field.into() },
        )),
        RulePart::Meta(MetaField::L4proto) => NamedExpression::Meta(Meta { key: MetaKey::L4proto }),
        RulePart::Meta(MetaField::Nfproto) => NamedExpression::Meta(Meta { key: MetaKey::Nfproto }),
    }));
    let left = Expression::Named(NamedExpression::Concat(left.collect()));
    let op = match op { MatchOp::In => Operator::IN, MatchOp::Eq => Operator::EQ };
    let right = Expression::String(right.into());
    rule.expr.to_mut().push(Statement::Match(Match { left, right, op }));
}

/// `Vec::push` on the statements of a `nftables::schema::Rule`, with
/// `nftables::stmt::Statement::Accept`: the statement comes last.
#[verifier::external_body]
fn push_accept(rule: &mut Rule<'static>)
    ensures
        rule_place(*final(rule)) == rule_place(*old(rule)),
        rule_steps(*final(rule)) == rule_steps(*old(rule)).push(RuleStep::Accept),
{
    rule.expr.to_mut().push(Statement::Accept(None));
}

/// `nftables::batch::Batch::add` with a rule: the command comes last.
#[verifier::external_body]
fn add_rule(batch: &mut Batch<'static>, rule: Rule<'static>)
    ensures
        batch_commands(*final(batch)) == batch_commands(*old(batch)).push(
            NftCommand::AddRule { place: rule_place(rule), steps: rule_steps(rule) },
        ),
{
    batch.add(NfListObject::Rule(rule));
}

/// `nftables::batch::Batch::add` with one element that has a timeout: the command
/// comes last.
#[verifier::external_body]
fn add_element(
    batch: &mut Batch<'static>,
    family: Family,
    table: &'static str,
    set: &'static str,
    key: Vec<KeyPart>,
    timeout: u32,
)
    ensures
        batch_commands(*final(batch)) == batch_commands(*old(batch)).push(
            NftCommand::AddElement {
                family,
                table: table@,
                set: set@,
                key: key_parts(key@),
                timeout,
            },
        ),
{
    let family = match family { Family::Inet => NfFamily::INet, Family::Ip => NfFamily::IP };
    let key = key.into_iter().map(|p| match p {
        KeyPart::Text(s) => Expression::String(s.into()),
        KeyPart::Number(n) => Expression::Number(n),
    });
    let val = Box::new(Expression::Named(NamedExpression::Concat(key.collect())));
    let elem = Elem { val, timeout: Some(timeout), expires: None, comment: None, counter: None };
    let elem = vec![Expression::Named(NamedExpression::Elem(elem))].into();
    let (table, name) = (table.into(), set.into());
    batch.add(NfListObject::Element(Element { family, table, name, elem }));
}

/// `nftables::batch::Batch::delete` with one element: the command comes last.
#[verifier::external_body]
fn delete_element(
    batch: &mut Batch<'static>,
    family: Family,
    table: &'static str,
    set: &'static str,
    key: Vec<KeyPart>,
)
    ensures
        batch_commands(*final(batch)) == batch_commands(*old(batch)).push(
            NftCommand::DeleteElement { family, table: table@, set: set@, key: key_parts(key@) },
        ),
{
    let family = match family { Family::Inet => NfFamily::INet, Family::Ip => NfFamily::IP };
    let key = key.into_iter().map(|p| match p {
        KeyPart::Text(s) => Expression::String(s.into()),
        KeyPart::Number(n) => Expression::Number(n),
    });
    let elem = vec![Expression::Named(NamedExpression::Concat(key.collect()))].into();
    let (table, name) = (table.into(), set.into());
    batch.delete(NfListObject::Element(Element { family, table, name, elem }));
}

/// `nftables::batch::Batch::delete` with a table: the command comes last.
#[verifier::external_body]
fn delete_table(batch: &mut Batch<'static>, family: Family, name: &str)
    ensures
        batch_commands(*final(batch)) == batch_commands(*old(batch)).push(
            NftCommand::DeleteTable { family, name: name@ },
        ),
{
    let family = match family { Family::Inet => NfFamily::INet, Family::Ip => NfFamily::IP };
    batch.delete(NfListObject::Table(Table { family, name: name.to_owned().into(), handle: None }));
}

/// What hands a ruleset to the kernel, or to a record of it.
///
/// What an application does is described by a relation between the applier before it,
/// the commands, the applier after it, and its result. An applier that does not say more
/// of itself may do anything in an application.
pub trait RulesetApplier: Sized {
    /// What applying a ruleset with the given commands does.
    open spec fn applies(
        before: Self,
        commands: Seq<NftCommand>,
        after: Self,
        r: Result<(), FirewallError>,
    ) -> bool {
        true
    }

    /// Applies a ruleset.
    fn apply(&mut self, ruleset: &Nftables<'static>) -> (r: Result<(), FirewallError>)
        ensures
            Self::applies(*old(self), ruleset_commands(*ruleset), *final(self), r),
    ;
}

/// The statements of the rule: what is in the set passes.
pub open spec fn lookup_steps() -> Seq<RuleStep> {
    seq![
        RuleStep::Match {
            left: seq![
                RulePartView::Field { protocol: "ip"@, field: "saddr"@ },
                RulePartView::Meta(MetaField::L4proto),
                RulePartView::Field { protocol: "th"@, field: "dport"@ },
            ],
            op: MatchOp::In,
            right: seq!['@'] + SET_NAME@,
        },
        RuleStep::Accept,
    ]
}

/// The commands that set up the table, the set, the chain and its rule.
pub open spec fn init_commands() -> Seq<NftCommand> {
    seq![
        NftCommand::AddTable { family: Family::Inet, name: TABLE_NAME@ },
        NftCommand::AddSet {
            family: Family::Inet,
            table: TABLE_NAME@,
            name: SET_NAME@,
            key: seq![SetKey::Ipv4Addr, SetKey::InetProto, SetKey::InetService],
            flags: Set::empty().insert(SetOption::Timeout),
        },
        NftCommand::AddChain {
            family: Family::Inet,
            table: TABLE_NAME@,
            name: CHAIN_NAME@,
            kind: ChainKind::Filter,
            hook: ChainHook::Input,
            prio: 0,
            policy: ChainPolicy::Accept,
        },
        NftCommand::AddRule {
            place: RulePlace { family: Family::Inet, table: TABLE_NAME@, chain: CHAIN_NAME@ },
            steps: lookup_steps(),
        },
    ]
}

/// The command that deletes the table.
pub open spec fn flush_commands() -> Seq<NftCommand> {
    seq![NftCommand::DeleteTable { family: Family::Inet, name: TABLE_NAME@ }]
}

/// A number of seconds as 32 bits, or the largest such number where it does not fit.
pub open spec fn timeout_u32(secs: u64) -> u32 {
    if secs > u32::MAX {
        u32::MAX
    } else {
        secs as u32
    }
}

/// The parts of an element: address, transport protocol and port.
pub open spec fn element_key(source: Seq<char>, proto: Seq<char>, port: u16) -> Seq<KeyPartView> {
    seq![KeyPartView::Text(source), KeyPartView::Text(proto), KeyPartView::Number(port as u32)]
}

/// The command that adds the element for one port.
pub open spec fn open_command(ip: u32, timeout: u32, p: PortProto) -> NftCommand {
    NftCommand::AddElement {
        family: Family::Inet,
        table: TABLE_NAME@,
        set: SET_NAME@,
        key: element_key(net::dotted(ip), types::protocol_text(p.proto), p.port),
        timeout,
    }
}

/// The command that deletes the element for one port.
pub open spec fn close_command(ip: u32, p: PortProto) -> NftCommand {
    NftCommand::DeleteElement {
        family: Family::Inet,
        table: TABLE_NAME@,
        set: SET_NAME@,
        key: element_key(net::dotted(ip), types::protocol_text(p.proto), p.port),
    }
}

/// The commands that add the elements for ports.
pub open spec fn open_commands(ip: u32, timeout: u32, ports: Seq<PortProto>) -> Seq<NftCommand> {
    ports.map_values(|p: PortProto| open_command(ip, timeout, p))
}

/// The commands that delete the elements for ports.
pub open spec fn close_commands(ip: u32, ports: Seq<PortProto>) -> Seq<NftCommand> {
    ports.map_values(|p: PortProto| close_command(ip, p))
}

/// The part of a handle that stands for one port.
pub open spec fn handle_part(ip: u32, p: PortProto) -> Seq<char> {
    net::dotted(ip) + seq!['/'] + types::port_text(p)
}

/// The handle of the rule for ports: their parts, with commas between them.
pub open spec fn handle_text(ip: u32, ports: Seq<PortProto>) -> Seq<char>
    decreases ports.len(),
{
    if ports.len() == 0 {
        Seq::empty()
    } else if ports.len() == 1 {
        handle_part(ip, ports[0])
    } else {
        handle_text(ip, ports.drop_last()) + seq![','] + handle_part(ip, ports.last())
    }
}

/// The command that deletes the element which a part of a handle stands for.
pub open spec fn part_command(part: Seq<char>) -> Option<NftCommand> {
    let fields = text::split(part, '/');
    if fields.len() != 3 {
        None
    } else {
        match text::number_u16(fields[2]) {
            Err(_) => None,
            Ok(port) => Some(
                NftCommand::DeleteElement {
                    family: Family::Inet,
                    table: TABLE_NAME@,
                    set: SET_NAME@,
                    key: element_key(fields[0], fields[1], port),
                },
            ),
        }
    }
}

/// The commands that delete the elements which parts of a handle stand for, where
/// all parts stand for one.
pub open spec fn parts_commands(parts: Seq<Seq<char>>) -> Option<Seq<NftCommand>>
    decreases parts.len(),
{
    if parts.len() == 0 {
        Some(Seq::empty())
    } else {
        match (parts_commands(parts.drop_last()), part_command(parts.last())) {
            (Some(commands), Some(command)) => Some(commands.push(command)),
            _ => None,
        }
    }
}

/// The commands that delete the elements which a handle stands for, where it is well
/// formed.
pub open spec fn handle_commands(handle: Seq<char>) -> Option<Seq<NftCommand>> {
    parts_commands(text::split(handle, ','))
}

/// A part that stands for nothing spoils all that follows.
proof fn lemma_parts_prefix(parts: Seq<Seq<char>>, n: int)
    requires
        0 <= n <= parts.len(),
        parts_commands(parts.take(n)) is None,
    ensures
        parts_commands(parts) is None,
    decreases parts.len(),
{
    if n < parts.len() {
        assert(parts.drop_last().take(n) =~= parts.take(n));
        lemma_parts_prefix(parts.drop_last(), n);
    } else {
        assert(parts.take(n) =~= parts);
    }
}

/// The backend for nftables. It builds rulesets and hands them to an applier.
pub struct NftablesBackend<A: RulesetApplier> {
    /// What applies the rulesets.
    pub applier: A,
    /// Whether the table is set up.
    pub initialized: bool,
}

/// The text of the error for an operation that needs the table.
pub open spec fn before_init_text(op: Seq<char>) -> Seq<char> {
    op + " called before init"@
}

impl<A: RulesetApplier> NftablesBackend<A> {
    /// A backend whose table is not set up.
    #[must_use]
    pub fn with_applier(applier: A) -> (r: NftablesBackend<A>)
        ensures
            r.applier == applier,
            !r.initialized,
    {
        NftablesBackend { applier, initialized: false }
    }

    /// Checks that the table is set up.
    fn assert_initialized(&self, op: &str) -> (r: Result<(), FirewallError>)
        ensures
            r is Ok <==> self.initialized,
            r is Err ==> r->Err_0@ == FirewallErrorView::InconsistentState(before_init_text(op@)),
    {
        if !self.initialized {
            let mut msg = op.to_owned();
            msg.append(" called before init");
            return Err(FirewallError::InconsistentState(msg));
        }
        Ok(())
    }
}

/// The rule that lets pass what is in the set.
fn lookup_rule() -> (r: Rule<'static>)
    ensures
        rule_place(r) == (RulePlace {
            family: Family::Inet,
            table: TABLE_NAME@,
            chain: CHAIN_NAME@,
        }),
        rule_steps(r) == lookup_steps(),
{
    let mut right = String::new();
    right.push('@');
    right.append(SET_NAME);
    let mut left: Vec<RulePart> = Vec::new();
    left.push(RulePart::Field { protocol: "ip", field: "saddr" });
    left.push(RulePart::Meta(MetaField::L4proto));
    left.push(RulePart::Field { protocol: "th", field: "dport" });
    let mut rule = new_rule(Family::Inet, TABLE_NAME, CHAIN_NAME);
    push_match(&mut rule, left, MatchOp::In, right);
    push_accept(&mut rule);
    proof {
        assert(right@ =~= seq!['@'] + SET_NAME@);
        assert(rule_parts(left@) =~= lookup_steps()[0]->left);
        assert(rule_steps(rule) =~= lookup_steps());
    }
    rule
}

/// The batch that sets up the table, the set, the chain and its rule.
fn init_batch() -> (r: Batch<'static>)
    ensures
        batch_commands(r) == init_commands(),
{
    let mut batch = new_batch();
    add_table(&mut batch, Family::Inet, TABLE_NAME);
    let mut key: Vec<SetKey> = Vec::new();
    key.push(SetKey::Ipv4Addr);
    key.push(SetKey::InetProto);
    key.push(SetKey::InetService);
    let mut flags: Vec<SetOption> = Vec::new();
    flags.push(SetOption::Timeout);
    add_set(&mut batch, Family::Inet, TABLE_NAME, SET_NAME, &key, &flags);
    add_chain(
        &mut batch,
        Family::Inet,
        TABLE_NAME,
        CHAIN_NAME,
        ChainKind::Filter,
        ChainHook::Input,
        0,
        ChainPolicy::Accept,
    );
    add_rule(&mut batch, lookup_rule());
    proof {
        assert(key@ =~= seq![SetKey::Ipv4Addr, SetKey::InetProto, SetKey::InetService]);
        assert(flags@ =~= seq![SetOption::Timeout]);
        assert(flags@[0] == SetOption::Timeout);
        assert(flags@.to_set() =~= Set::empty().insert(SetOption::Timeout));
        assert(batch_commands(batch) =~= init_commands());
    }
    batch
}

/// The parts of an element: address, transport protocol and port.
fn key_of(source: &str, proto: &str, port: u16) -> (r: Vec<KeyPart>)
    ensures
        key_parts(r@) == element_key(source@, proto@, port),
{
    let mut key: Vec<KeyPart> = Vec::new();
    key.push(KeyPart::Text(source.to_owned()));
    key.push(KeyPart::Text(proto.to_owned()));
    key.push(KeyPart::Number(port as u32));
    assert(key_parts(key@) =~= element_key(source@, proto@, port));
    key
}

/// The batch that adds the elements for ports, and the handle of the rule.
fn open_batch(ip: u32, timeout: u32, ports: &Vec<PortProto>) -> (r: (Batch<'static>, String))
    ensures
        batch_commands(r.0) == open_commands(ip, timeout, ports@),
        r.1@ == handle_text(ip, ports@),
{
    let mut batch = new_batch();
    let mut handle = String::new();
    let source = net::ipv4_to_string(ip);
    for i in 0..ports.len()
        invariant
            source@ == net::dotted(ip),
            batch_commands(batch) =~= open_commands(ip, timeout, ports@.take(i as int)),
            handle@ == handle_text(ip, ports@.take(i as int)),
    {
        let p = ports[i];
        let ghost done = ports@.take(i as int);
        let key = key_of(source.as_str(), p.proto.name(), p.port);
        add_element(&mut batch, Family::Inet, TABLE_NAME, SET_NAME, key, timeout);
        if i > 0 {
            handle.push(',');
        }
        handle.append(source.as_str());
        handle.push('/');
        p.push_to(&mut handle);
        proof {
            assert(ports@.take(i + 1) =~= done.push(p));
            assert(done.push(p).drop_last() =~= done);
            assert(handle@ =~= handle_text(ip, done.push(p)));
        }
    }
    assert(ports@.take(ports@.len() as int) =~= ports@);
    (batch, handle)
}

/// The batch that deletes the elements which a handle stands for.
fn close_batch(handle: &str) -> (r: Option<Batch<'static>>)
    ensures
        match r {
            Some(batch) => handle_commands(handle@) == Some(batch_commands(batch)),
            None => handle_commands(handle@) is None,
        },
{
    let mut batch = new_batch();
    let chars = text::chars_of(handle);
    let parts = text::split_on(chars.as_slice(), ',');
    let ghost all = text::views(parts@);
    for i in 0..parts.len()
        invariant
            all == text::views(parts@),
            all == text::split(handle@, ','),
            parts_commands(all.take(i as int)) == Some(batch_commands(batch)),
    {
        let fields = text::split_on(parts[i].as_slice(), '/');
        assert(all.take(i + 1).drop_last() =~= all.take(i as int));
        assert(all.take(i + 1).last() == parts@[i as int]@);
        assert(text::views(fields@) == text::split(parts@[i as int]@, '/'));
        if fields.len() != 3 {
            proof {
                lemma_parts_prefix(all, i + 1);
            }
            return None;
        }
        assert(text::views(fields@)[2] == fields@[2]@);
        assert(text::views(fields@)[1] == fields@[1]@);
        assert(text::views(fields@)[0] == fields@[0]@);
        let port: u16 = match text::parse_u16(fields[2].as_slice()) {
            Ok(port) => port,
            Err(_) => {
                proof {
                    lemma_parts_prefix(all, i + 1);
                }
                return None;
            },
        };
        let source = text::string_of(fields[0].as_slice());
        let proto = text::string_of(fields[1].as_slice());
        let key = key_of(source.as_str(), proto.as_str(), port);
        delete_element(&mut batch, Family::Inet, TABLE_NAME, SET_NAME, key);
    }
    assert(all.take(all.len() as int) =~= all);
    Some(batch)
}

impl<A: RulesetApplier> FirewallBackend for NftablesBackend<A> {
    /// One ruleset is applied, which sets everything up, and no other; the result is the
    /// applier's.
    open spec fn inits(before: Self, after: Self, r: Result<(), FirewallError>) -> bool {
        &&& A::applies(before.applier, init_commands(), after.applier, r)
        &&& after.initialized == (before.initialized || r is Ok)
    }

    /// For an IPv4 source one ruleset is applied, which adds an element for each port
    /// with the timeout of the rule, and no other. An error of the backend itself comes
    /// before anything is applied.
    open spec fn opens(
        before: Self,
        rule: AccessRule,
        after: Self,
        r: Result<RuleHandle, FirewallError>,
    ) -> bool {
        if !before.initialized {
            after == before && r is Err && r->Err_0@ == FirewallErrorView::InconsistentState(
                before_init_text("open_access"@),
            )
        } else {
            match rule.source_ip {
                IpAddr::V6(_) => after == before && r is Err && r->Err_0@
                    == FirewallErrorView::Unsupported(
                    "IPv6 source addresses (Phase 2 nftables backend is IPv4-only)"@,
                ),
                IpAddr::V4(ip) => {
                    let commands = open_commands(ip, timeout_u32(rule.timeout.secs), rule.ports@);
                    &&& after.initialized == before.initialized
                    &&& exists|result: Result<(), FirewallError>| #[trigger]
                        A::applies(before.applier, commands, after.applier, result)
                            && match result {
                            Ok(_) => r is Ok && r->Ok_0.0@ == handle_text(ip, rule.ports@),
                            Err(e) => r == Err::<RuleHandle, FirewallError>(e),
                        }
                },
            }
        }
    }

    /// For a handle that is well formed one ruleset is applied, which deletes the
    /// elements that the handle stands for, and no other; the result is the applier's.
    /// An error of the backend itself comes before anything is applied.
    open spec fn removes(
        before: Self,
        handle: RuleHandle,
        after: Self,
        r: Result<(), FirewallError>,
    ) -> bool {
        if !before.initialized {
            after == before && r is Err && r->Err_0@ == FirewallErrorView::InconsistentState(
                before_init_text("remove_rule"@),
            )
        } else {
            match handle_commands(handle.0@) {
                None => after == before && r is Err && r->Err_0@ == FirewallErrorView::RuleNotFound(
                    handle.0@,
                ),
                Some(commands) => after.initialized == before.initialized && A::applies(
                    before.applier,
                    commands,
                    after.applier,
                    r,
                ),
            }
        }
    }

    /// One ruleset is applied, which deletes the table, and no other; that it fails does
    /// not matter.
    open spec fn flushes(before: Self, after: Self, r: Result<(), FirewallError>) -> bool {
        &&& r is Ok
        &&& !after.initialized
        &&& exists|result: Result<(), FirewallError>| #[trigger]
            A::applies(before.applier, flush_commands(), after.applier, result)
    }

    fn init(&mut self) -> (r: Result<(), FirewallError>) {
        let ruleset = batch_ruleset(init_batch());
        let r = self.applier.apply(&ruleset);
        if r.is_ok() {
            self.initialized = true;
        }
        r
    }

    fn open_access(&mut self, rule: &AccessRule) -> (r: Result<RuleHandle, FirewallError>) {
        match self.assert_initialized("open_access") {
            Ok(()) => {},
            Err(e) => return Err(e),
        }
        let ip: u32 = match rule.source_ip {
            IpAddr::V4(ip) => ip,
            IpAddr::V6(_) => {
                return Err(
                    FirewallError::Unsupported(
                        "IPv6 source addresses (Phase 2 nftables backend is IPv4-only)",
                    ),
                );
            },
        };
        let secs: u64 = rule.timeout.as_secs();
        let timeout: u32 = if secs > u32::MAX as u64 {
            u32::MAX
        } else {
            secs as u32
        };
        let (batch, handle) = open_batch(ip, timeout, &rule.ports);
        let ruleset = batch_ruleset(batch);
        let r = self.applier.apply(&ruleset);
        proof {
            let commands = open_commands(ip, timeout_u32(rule.timeout.secs), rule.ports@);
            assert(A::applies(old(self).applier, commands, self.applier, r));
        }
        match r {
            Ok(()) => Ok(RuleHandle(handle)),
            Err(e) => Err(e),
        }
    }

    fn remove_rule(&mut self, handle: &RuleHandle) -> (r: Result<(), FirewallError>) {
        match self.assert_initialized("remove_rule") {
            Ok(()) => {},
            Err(e) => return Err(e),
        }
        let batch = match close_batch(handle.as_str()) {
            Some(batch) => batch,
            None => return Err(FirewallError::RuleNotFound(handle.as_str().to_owned())),
        };
        let ruleset = batch_ruleset(batch);
        self.applier.apply(&ruleset)
    }

    fn flush(&mut self) -> (r: Result<(), FirewallError>) {
        let mut batch = new_batch();
        delete_table(&mut batch, Family::Inet, TABLE_NAME);
        let ruleset = batch_ruleset(batch);
        let r = self.applier.apply(&ruleset);
        self.initialized = false;
        proof {
            assert(ruleset_commands(ruleset) =~= flush_commands());
            assert(A::applies(old(self).applier, flush_commands(), self.applier, r));
        }
        Ok(())
    }
}

/// A part of a handle has three fields: the address, the protocol and the port.
proof fn lemma_part_reads_back(ip: u32, p: PortProto)
    ensures
        part_command(handle_part(ip, p)) == Some(close_command(ip, p)),
        text::lacks(handle_part(ip, p), ','),
{
    let source = net::dotted(ip);
    let proto = types::protocol_text(p.proto);
    let port = text::decimal(p.port as nat);
    reveal_strlit("tcp");
    reveal_strlit("udp");
    net::lemma_dotted_chars(ip);
    text::lemma_decimal_digits(p.port as nat);
    text::law_decimal_reads_back(p.port);
    assert(text::lacks(source, '/') && text::lacks(proto, '/') && text::lacks(port, '/'));
    text::lemma_split_one(source, '/');
    text::lemma_split_more(source, proto, '/');
    text::lemma_split_more(source + seq!['/'] + proto, port, '/');
    let part = handle_part(ip, p);
    assert(part =~= source + seq!['/'] + proto + seq!['/'] + port);
    assert(text::split(part, '/') =~= seq![source, proto, port]);
    assert(text::lacks(part, ',')) by {
        assert forall|i: int| 0 <= i < part.len() implies part[i] != ',' by {
            let a = source.len() as int;
            let b = a + 1 + proto.len();
            if i < a {
                assert(part[i] == source[i]);
            } else if a < i < b {
                assert(part[i] == proto[i - a - 1]);
            } else if b < i {
                assert(part[i] == port[i - b - 1]);
            }
        }
    }
}

/// The handle of a rule with a port splits into the parts of its ports.
proof fn lemma_handle_splits(ip: u32, ports: Seq<PortProto>)
    requires
        ports.len() > 0,
    ensures
        text::split(handle_text(ip, ports), ',') == ports.map_values(
            |p: PortProto| handle_part(ip, p),
        ),
    decreases ports.len(),
{
    let parts = ports.map_values(|p: PortProto| handle_part(ip, p));
    lemma_part_reads_back(ip, ports.last());
    if ports.len() == 1 {
        text::lemma_split_one(handle_part(ip, ports[0]), ',');
        assert(parts =~= seq![handle_part(ip, ports[0])]);
    } else {
        lemma_handle_splits(ip, ports.drop_last());
        text::lemma_split_more(
            handle_text(ip, ports.drop_last()),
            handle_part(ip, ports.last()),
            ',',
        );
        assert(parts =~= ports.drop_last().map_values(|p: PortProto| handle_part(ip, p)).push(
            handle_part(ip, ports.last()),
        ));
    }
}

/// The parts of ports stand for the commands that delete their elements.
proof fn lemma_parts_read_back(ip: u32, ports: Seq<PortProto>)
    ensures
        parts_commands(ports.map_values(|p: PortProto| handle_part(ip, p))) == Some(
            close_commands(ip, ports),
        ),
    decreases ports.len(),
{
    let parts = ports.map_values(|p: PortProto| handle_part(ip, p));
    if ports.len() > 0 {
        lemma_parts_read_back(ip, ports.drop_last());
        lemma_part_reads_back(ip, ports.last());
        assert(parts.drop_last() =~= ports.drop_last().map_values(
            |p: PortProto| handle_part(ip, p),
        ));
        assert(close_commands(ip, ports) =~= close_commands(ip, ports.drop_last()).push(
            close_command(ip, ports.last()),
        ));
    } else {
        assert(close_commands(ip, ports) =~= Seq::empty());
    }
}

/// Removing a rule by the handle that installing it gave deletes exactly the elements
/// that were added, in the same order, where the rule opens a port.
pub proof fn law_handle_closes_what_was_opened(ip: u32, timeout: u32, ports: Seq<PortProto>)
    requires
        ports.len() > 0,
    ensures
        handle_commands(handle_text(ip, ports)) == Some(close_commands(ip, ports)),
        close_commands(ip, ports).len() == open_commands(ip, timeout, ports).len(),
        forall|i: int|
            0 <= i < ports.len() ==> deletes_what_adds(
                #[trigger] close_commands(ip, ports)[i],
                open_commands(ip, timeout, ports)[i],
            ),
{
    lemma_handle_splits(ip, ports);
    lemma_parts_read_back(ip, ports);
}

/// Whether one command deletes the element that another adds.
pub open spec fn deletes_what_adds(deletes: NftCommand, adds: NftCommand) -> bool {
    match (deletes, adds) {
        (
            NftCommand::DeleteElement { family: f1, table: t1, set: s1, key: k1 },
            NftCommand::AddElement { family: f2, table: t2, set: s2, key: k2, .. },
        ) => f1 == f2 && t1 == t2 && s1 == s2 && k1 == k2,
        _ => false,
    }
}

/// Rules with the same source and different ports have different handles.
pub proof fn law_handles_tell_ports_apart(ip: u32, a: Seq<PortProto>, b: Seq<PortProto>)
    requires
        a.len() > 0,
        b.len() > 0,
        handle_text(ip, a) == handle_text(ip, b),
    ensures
        a == b,
{
    reveal_strlit("tcp");
    reveal_strlit("udp");
    law_handle_closes_what_was_opened(ip, 0, a);
    law_handle_closes_what_was_opened(ip, 0, b);
    assert("tcp"@[0] == 't' && "udp"@[0] == 'u');
    assert forall|i: int| 0 <= i < a.len() implies a[i] == b[i] by {
        assert(close_commands(ip, a)[i] == close_command(ip, a[i]));
        assert(close_commands(ip, b)[i] == close_command(ip, b[i]));
        let left = close_command(ip, a[i])->DeleteElement_key;
        let right = close_command(ip, b[i])->DeleteElement_key;
        assert(left[1] == right[1] && left[2] == right[2]);
    }
    assert(a =~= b);
}

/// Every element stays as long as its rule: for a rule whose whole seconds fit in 32 bits,
/// there is one command for each port, in the order of the ports, and each adds an element
/// with the seconds of the rule. The element stands in the table and the set that were
/// set up, for the address, the protocol and the number of its port.
pub proof fn law_elements_expire_with_their_rule(rule: AccessRule, ip: u32)
    requires
        rule.timeout.secs <= 0xffff_ffff,
    ensures
        ({
            let commands = open_commands(ip, timeout_u32(rule.timeout.secs), rule.ports@);
            &&& commands.len() == rule.ports@.len()
            &&& forall|i: int|
                0 <= i < commands.len() ==> match #[trigger] commands[i] {
                    NftCommand::AddElement { family, table, set, key, timeout } => {
                        &&& timeout as int == rule.timeout.secs as int
                        &&& family == Family::Inet
                        &&& table == "fwknox"@
                        &&& set == "fwknox_allow_v4"@
                        &&& key.len() == 3
                        &&& key[0] == KeyPartView::Text(net::dotted(ip))
                        &&& key[1] == KeyPartView::Text(
                            if rule.ports@[i].proto == Protocol::Tcp {
                                "tcp"@
                            } else {
                                "udp"@
                            },
                        )
                        &&& key[2] == KeyPartView::Number(rule.ports@[i].port as u32)
                    },
                    _ => false,
                }
        }),
{
}

/// A rule that is longer than 32 bits hold is cut to the longest time that they hold: no
/// element outlives its rule, and none is shorter than it has to be.
pub proof fn law_no_element_outlives_its_rule(a: u64, b: u64)
    ensures
        timeout_u32(a) <= a,
        a <= 0xffff_ffff ==> timeout_u32(a) as int == a as int,
        a > 0xffff_ffff ==> timeout_u32(a) as int == 0xffff_ffff,
        a <= b ==> timeout_u32(a) <= timeout_u32(b),
{
}

/// A rule for an IPv4 source is handed to the applier once the table is set up: one
/// command for each of its ports, and each stays as long as the rule. The rule is open
/// exactly where the applier succeeds, and its handle then names the source and the ports.
pub proof fn law_open_hands_over_the_rule<A: RulesetApplier>(
    before: NftablesBackend<A>,
    rule: AccessRule,
    after: NftablesBackend<A>,
    r: Result<RuleHandle, FirewallError>,
)
    requires
        NftablesBackend::<A>::opens(before, rule, after, r),
        before.initialized,
        rule.source_ip is V4,
        rule.timeout.secs <= 0xffff_ffff,
    ensures
        after.initialized,
        exists|commands: Seq<NftCommand>, result: Result<(), FirewallError>|
            {
                &&& #[trigger] A::applies(before.applier, commands, after.applier, result)
                &&& r is Ok <==> result is Ok
                &&& r is Err ==> r->Err_0 == result->Err_0
                &&& commands.len() == rule.ports@.len()
                &&& forall|i: int|
                    0 <= i < commands.len() ==> (#[trigger] commands[i]) is AddElement
                        && commands[i]->AddElement_timeout as int == rule.timeout.secs as int
                        && commands[i]->AddElement_key[0] == KeyPartView::Text(
                        net::dotted(rule.source_ip->V4_0),
                    ) && commands[i]->AddElement_key[2] == KeyPartView::Number(
                        rule.ports@[i].port as u32,
                    )
            },
        r is Ok ==> r->Ok_0.0@ == text::joined(
            rule.ports@.map_values(|p: PortProto| handle_part(rule.source_ip->V4_0, p)),
            ',',
        ),
{
    let ip = rule.source_ip->V4_0;
    let commands = open_commands(ip, timeout_u32(rule.timeout.secs), rule.ports@);
    law_elements_expire_with_their_rule(rule, ip);
    let result = choose|result: Result<(), FirewallError>| #[trigger]
        A::applies(before.applier, commands, after.applier, result) && match result {
            Ok(_) => r is Ok && r->Ok_0.0@ == handle_text(ip, rule.ports@),
            Err(e) => r == Err::<RuleHandle, FirewallError>(e),
        };
    assert(A::applies(before.applier, commands, after.applier, result));
    law_handle_joins_its_parts(ip, rule.ports@);
}

/// A handle is its parts with commas between them, and a part is the address, the
/// protocol and the port with slashes between them.
pub proof fn law_handle_joins_its_parts(ip: u32, ports: Seq<PortProto>)
    ensures
        handle_text(ip, ports) == text::joined(
            ports.map_values(|p: PortProto| handle_part(ip, p)),
            ',',
        ),
        forall|i: int|
            0 <= i < ports.len() ==> #[trigger] handle_part(ip, ports[i]) == text::joined(
                seq![
                    net::dotted(ip),
                    if ports[i].proto == Protocol::Tcp {
                        "tcp"@
                    } else {
                        "udp"@
                    },
                    text::decimal(ports[i].port as nat),
                ],
                '/',
            ),
    decreases ports.len(),
{
    let parts = ports.map_values(|p: PortProto| handle_part(ip, p));
    if ports.len() > 1 {
        law_handle_joins_its_parts(ip, ports.drop_last());
        assert(parts.drop_last() =~= ports.drop_last().map_values(
            |p: PortProto| handle_part(ip, p),
        ));
    }
    assert forall|i: int| 0 <= i < ports.len() implies #[trigger] handle_part(ip, ports[i])
        == text::joined(
        seq![
            net::dotted(ip),
            if ports[i].proto == Protocol::Tcp {
                "tcp"@
            } else {
                "udp"@
            },
            text::decimal(ports[i].port as nat),
        ],
        '/',
    ) by {
        let name = types::protocol_text(ports[i].proto);
        let all = seq![net::dotted(ip), name, text::decimal(ports[i].port as nat)];
        reveal_with_fuel(text::joined, 3);
        assert(all.drop_last() =~= seq![all[0], all[1]]);
        assert(all.drop_last().drop_last() =~= seq![all[0]]);
        assert(text::joined(all, '/') =~= handle_part(ip, ports[i]));
    }
}

/// A handle is accepted exactly where each of its parts has three fields of which the last
/// is a port; then there is one command for each part, which deletes the element with the
/// part's fields.
pub proof fn law_handles_by_their_parts(handle: Seq<char>)
    ensures
        handle_commands(handle) is Some <==> forall|i: int|
            0 <= i < text::split(handle, ',').len() ==> {
                let fields = text::split(#[trigger] text::split(handle, ',')[i], '/');
                fields.len() == 3 && text::number_u16(fields[2]) is Ok
            },
        handle_commands(handle) is Some ==> {
            let commands = handle_commands(handle)->0;
            &&& commands.len() == text::split(handle, ',').len()
            &&& forall|i: int|
                0 <= i < commands.len() ==> {
                    let fields = text::split(text::split(handle, ',')[i], '/');
                    &&& (#[trigger] commands[i]) is DeleteElement
                    &&& commands[i]->DeleteElement_family == Family::Inet
                    &&& commands[i]->DeleteElement_table == "fwknox"@
                    &&& commands[i]->DeleteElement_set == "fwknox_allow_v4"@
                    &&& commands[i]->DeleteElement_key == seq![
                        KeyPartView::Text(fields[0]),
                        KeyPartView::Text(fields[1]),
                        KeyPartView::Number(text::number_u16(fields[2])->Ok_0 as u32),
                    ]
                }
        },
{
    lemma_parts_one_by_one(text::split(handle, ','));
}

proof fn lemma_parts_one_by_one(parts: Seq<Seq<char>>)
    ensures
        parts_commands(parts) is Some <==> forall|i: int|
            0 <= i < parts.len() ==> {
                let fields = text::split(#[trigger] parts[i], '/');
                fields.len() == 3 && text::number_u16(fields[2]) is Ok
            },
        parts_commands(parts) is Some ==> parts_commands(parts)->0.len() == parts.len()
            && forall|i: int|
            0 <= i < parts.len() ==> Some(#[trigger] parts_commands(parts)->0[i]) == part_command(
                parts[i],
            ),
    decreases parts.len(),
{
    if parts.len() > 0 {
        let head = parts.drop_last();
        let last = parts.len() - 1;
        lemma_parts_one_by_one(head);
        assert(parts.last() == parts[last]);
        if parts_commands(parts) is Some {
            assert forall|i: int| 0 <= i < parts.len() implies {
                let fields = text::split(#[trigger] parts[i], '/');
                fields.len() == 3 && text::number_u16(fields[2]) is Ok
            } by {
                if i < last {
                    assert(parts[i] == head[i]);
                }
            }
        }
        if forall|i: int|
            0 <= i < parts.len() ==> {
                let fields = text::split(#[trigger] parts[i], '/');
                fields.len() == 3 && text::number_u16(fields[2]) is Ok
            } {
            assert forall|i: int| 0 <= i < head.len() implies {
                let fields = text::split(#[trigger] head[i], '/');
                fields.len() == 3 && text::number_u16(fields[2]) is Ok
            } by {
                assert(head[i] == parts[i]);
            }
        }
    }
}

/// What is set up fits together and fits the elements that are added later: the set, the
/// chain and the rule stand in the table that is added first; the rule looks packets up in
/// the set by as many parts as the set's key and an element's key have; the packets that it
/// does not find go the way they went before; and flushing deletes that table.
pub proof fn law_setup_fits_together(ip: u32, timeout: u32, p: PortProto)
    ensures
        ({
            let setup = init_commands();
            let element = open_command(ip, timeout, p);
            &&& setup.len() == 4
            &&& setup[0] is AddTable && setup[1] is AddSet
            &&& setup[2] is AddChain && setup[3] is AddRule
            &&& setup[1]->AddSet_table == setup[0]->AddTable_name
            &&& setup[2]->AddChain_table == setup[0]->AddTable_name
            &&& setup[3]->AddRule_place.table == setup[0]->AddTable_name
            &&& setup[3]->AddRule_place.chain == setup[2]->AddChain_name
            &&& element->AddElement_table == setup[0]->AddTable_name
            &&& element->AddElement_set == setup[1]->AddSet_name
            &&& element->AddElement_family == setup[1]->AddSet_family
            &&& setup[1]->AddSet_flags.contains(SetOption::Timeout)
            &&& !setup[1]->AddSet_flags.contains(SetOption::Interval)
            &&& setup[1]->AddSet_key == seq![
                SetKey::Ipv4Addr,
                SetKey::InetProto,
                SetKey::InetService,
            ]
            &&& element->AddElement_key.len() == setup[1]->AddSet_key.len()
            &&& setup[2]->AddChain_kind == ChainKind::Filter
            &&& setup[2]->AddChain_hook == ChainHook::Input
            &&& setup[2]->AddChain_policy == ChainPolicy::Accept
            &&& setup[2]->AddChain_prio == 0
            &&& setup[3]->AddRule_steps.len() == 2
            &&& setup[3]->AddRule_steps[0] is Match
            &&& setup[3]->AddRule_steps[0]->Match_op == MatchOp::In
            &&& setup[3]->AddRule_steps[0]->Match_left == seq![
                RulePartView::Field { protocol: "ip"@, field: "saddr"@ },
                RulePartView::Meta(MetaField::L4proto),
                RulePartView::Field { protocol: "th"@, field: "dport"@ },
            ]
            &&& setup[3]->AddRule_steps[0]->Match_right == seq!['@'] + setup[1]->AddSet_name
            &&& setup[3]->AddRule_steps[1] == RuleStep::Accept
            &&& flush_commands().len() == 1
            &&& flush_commands()[0] is DeleteTable
            &&& flush_commands()[0]->DeleteTable_name == setup[0]->AddTable_name
            &&& flush_commands()[0]->DeleteTable_family == setup[0]->AddTable_family
        }),
{
}

/// Nothing reaches the applier where the table is not set up or the source is not IPv4, and
/// then the rule is not open; and without the table nothing is removed.
pub proof fn law_refusals_touch_nothing<A: RulesetApplier>(
    before: NftablesBackend<A>,
    rule: AccessRule,
    handle: RuleHandle,
    after: NftablesBackend<A>,
    opened: Result<RuleHandle, FirewallError>,
    removed: Result<(), FirewallError>,
)
    ensures
        NftablesBackend::<A>::opens(before, rule, after, opened) && (!before.initialized
            || rule.source_ip is V6) ==> after == before && opened is Err,
        NftablesBackend::<A>::removes(before, handle, after, removed) && !before.initialized
            ==> after == before && removed is Err,
        NftablesBackend::<A>::opens(before, rule, after, opened) && !before.initialized
            ==> opened->Err_0@ == FirewallErrorView::InconsistentState(
            "open_access"@ + " called before init"@,
        ),
        NftablesBackend::<A>::removes(before, handle, after, removed) && !before.initialized
            ==> removed->Err_0@ == FirewallErrorView::InconsistentState(
            "remove_rule"@ + " called before init"@,
        ),
        NftablesBackend::<A>::removes(before, handle, after, removed) && before.initialized
            ==> after.initialized,
{
}

/// Setting up succeeds exactly where the applier does, and marks the table as set up then;
/// flushing always succeeds and leaves no table.
pub proof fn law_setup_and_flush<A: RulesetApplier>(
    before: NftablesBackend<A>,
    after: NftablesBackend<A>,
    r: Result<(), FirewallError>,
)
    ensures
        NftablesBackend::<A>::inits(before, after, r) ==> A::applies(
            before.applier,
            init_commands(),
            after.applier,
            r,
        ),
        NftablesBackend::<A>::inits(before, after, r) && r is Ok ==> after.initialized,
        NftablesBackend::<A>::inits(before, after, r) && r is Err ==> after.initialized
            == before.initialized,
        NftablesBackend::<A>::flushes(before, after, r) ==> r is Ok && !after.initialized,
{
}

} // verus!
