use vstd::prelude::*;

use crate::decimal::{decimal, push_decimal};
use crate::funds::same_string;

verus! {

#[derive(Clone, Copy, Debug, PartialEq, Eq, Structural)]
pub enum EscrowType {
    Source,
    Destination,
}

#[derive(Clone, Copy, Debug, PartialEq, Eq, Structural)]
pub enum ContractError {
    Unauthorized,
    EscrowAlreadyExists,
    /// A creation result names no registry row that still waits for one.
    UnknownCreation,
}

/// A registry row: one escrow instance requested from the factory.
#[derive(Clone, Debug, PartialEq, Eq)]
pub struct EscrowInfo {
    /// `None` until the creation result arrives.
    pub address: Option<String>,
    pub escrow_type: EscrowType,
    pub creator: String,
    pub created_at: u64,
    pub salt: String,
}

#[derive(Clone, Debug, PartialEq, Eq)]
pub struct Config {
    pub owner: String,
    pub source_escrow_code_id: u64,
    pub destination_escrow_code_id: u64,
}

/// The factory: its configuration and its append-only registry. A row's
/// position in the registry is the correlation id of its creation request.
#[derive(Clone, Debug, PartialEq, Eq)]
pub struct Factory {
    pub config: Config,
    pub escrows: Vec<EscrowInfo>,
}

/// What the host must do for a successful `create`: instantiate `code_id`
/// under `label`, and hand the result back with `correlation_id`.
#[derive(Clone, Debug, PartialEq, Eq)]
pub struct InstantiateRequest {
    pub correlation_id: u64,
    pub code_id: u64,
    pub label: String,
    pub salt: String,
}

/// The creation key of a request: creator, time in nanoseconds and label,
/// joined by colons.
pub open spec fn salt_of(creator: Seq<char>, nanos: u64, label: Seq<char>) -> Seq<char> {
    creator + seq![':'] + decimal(nanos as nat) + seq![':'] + label
}

pub open spec fn label_prefix(escrow_type: EscrowType) -> Seq<char> {
    match escrow_type {
        EscrowType::Source => "source_escrow_"@,
        EscrowType::Destination => "destination_escrow_"@,
    }
}

pub open spec fn salt_taken(rows: Seq<EscrowInfo>, salt: Seq<char>) -> bool {
    exists|i: int| 0 <= i < rows.len() && rows[i].salt@ == salt
}

impl EscrowInfo {
    pub fn duplicate(&self) -> (r: EscrowInfo)
        ensures
            r == *self,
    {
        EscrowInfo {
            address: match &self.address {
                Some(a) => Some(a.clone()),
                None => None,
            },
            escrow_type: self.escrow_type,
            creator: self.creator.clone(),
            created_at: self.created_at,
            salt: self.salt.clone(),
        }
    }
}

impl Factory {
    /// No two rows share a salt.
    pub open spec fn wf(self) -> bool {
        forall|i: int, j: int|
            0 <= i < j < self.escrows@.len() ==> self.escrows@[i].salt@ != self.escrows@[j].salt@
    }

    /// Whether a creation result for `id` is still awaited.
    pub open spec fn pending(self, id: u64) -> bool {
        id < self.escrows@.len() && self.escrows@[id as int].address is None
    }
}

pub fn instantiate(config: Config) -> (r: Factory)
    ensures
        r.config == config,
        r.escrows@.len() == 0,
        r.wf(),
{
    Factory { config, escrows: Vec::new() }
}

fn find_salt(rows: &Vec<EscrowInfo>, salt: &String) -> (r: Option<usize>)
    ensures
        match r {
            Some(i) => i < rows@.len() && rows@[i as int].salt@ == salt@,
            None => !salt_taken(rows@, salt@),
        },
{
    let mut i: usize = 0;
    while i < rows.len()
        invariant
            i <= rows@.len(),
            forall|j: int| 0 <= j < i ==> rows@[j].salt@ != salt@,
        decreases rows@.len() - i,
    {
        if same_string(&rows[i].salt, salt) {
            return Some(i);
        }
        i = i + 1;
    }
    None
}

fn make_salt(creator: &String, nanos: u64, label: &String) -> (r: String)
    ensures
        r@ == salt_of(creator@, nanos, label@),
{
    let mut s = creator.clone();
    proof {
        reveal_strlit(":");
    }
    s.append(":");
    push_decimal(&mut s, nanos);
    s.append(":");
    s.append(label.as_str());
    s
}

/// Registers a creation request of `escrow_type` by `sender` at time `now`
/// (`now_nanos` in nanoseconds, `now_seconds` in seconds), and says what the
/// host must instantiate. A request whose salt is already registered is
/// refused, and the registry is left as it was.
pub fn create(
    factory: &mut Factory,
    escrow_type: EscrowType,
    sender: &String,
    now_nanos: u64,
    now_seconds: u64,
    label: &String,
) -> (r: Result<InstantiateRequest, ContractError>)
    requires
        old(factory).wf(),
        old(factory).escrows@.len() < u64::MAX,
    ensures
        final(factory).wf(),
        final(factory).config == old(factory).config,
        match r {
            Err(e) => e == ContractError::EscrowAlreadyExists && salt_taken(
                old(factory).escrows@,
                salt_of(sender@, now_nanos, label@),
            ) && *final(factory) == *old(factory),
            Ok(req) => !salt_taken(old(factory).escrows@, salt_of(sender@, now_nanos, label@)) && req.correlation_id == old(factory).escrows@.len() && req.salt@ == salt_of(
            sender@,
            now_nanos,
            label@,
        ) && req.label@ == label_prefix(escrow_type) + req.salt@ && req.code_id == match escrow_type {
            EscrowType::Source => old(factory).config.source_escrow_code_id,
            EscrowType::Destination => old(factory).config.destination_escrow_code_id,
        } && final(factory).escrows@ == old(factory).escrows@.push(
            EscrowInfo {
                address: None,
                escrow_type,
                creator: *sender,
                created_at: now_seconds,
                salt: req.salt,
            },
        ),
        },
{
    let salt = make_salt(sender, now_nanos, label);
    if find_salt(&factory.escrows, &salt).is_some() {
        return Err(ContractError::EscrowAlreadyExists);
    }
    let (mut instance_label, code_id) = match escrow_type {
        EscrowType::Source => {
            proof {
                reveal_strlit("source_escrow_");
            }
            (String::from_str("source_escrow_"), factory.config.source_escrow_code_id)
        },
        EscrowType::Destination => {
            proof {
                reveal_strlit("destination_escrow_");
            }
            (String::from_str("destination_escrow_"), factory.config.destination_escrow_code_id)
        },
    };
    instance_label.append(salt.as_str());
    let correlation_id = factory.escrows.len() as u64;
    let row = EscrowInfo {
        address: None,
        escrow_type,
        creator: sender.clone(),
        created_at: now_seconds,
        salt: salt.clone(),
    };
    factory.escrows.push(row);
    proof {
        assert forall|i: int, j: int|
            0 <= i < j < factory.escrows@.len() implies factory.escrows@[i].salt@
            != factory.escrows@[j].salt@ by {
            if j == factory.escrows@.len() - 1 {
                assert(old(factory).escrows@[i].salt@ != salt@);
            }
        }
    }
    Ok(InstantiateRequest { correlation_id, code_id, label: instance_label, salt })
}

/// Requests a source escrow; see `create`.
pub fn execute_create_source_escrow(
    factory: &mut Factory,
    sender: &String,
    now_nanos: u64,
    now_seconds: u64,
    label: &String,
) -> (r: Result<InstantiateRequest, ContractError>)
    requires
        old(factory).wf(),
        old(factory).escrows@.len() < u64::MAX,
    ensures
        final(factory).wf(),
        final(factory).config == old(factory).config,
        match r {
            Err(e) => e == ContractError::EscrowAlreadyExists && salt_taken(
                old(factory).escrows@,
                salt_of(sender@, now_nanos, label@),
            ) && *final(factory) == *old(factory),
            Ok(req) => !salt_taken(old(factory).escrows@, salt_of(sender@, now_nanos, label@)) && req.correlation_id == old(factory).escrows@.len() && req.code_id == old(factory).config.source_escrow_code_id && final(factory).escrows@ == old(factory).escrows@.push(
            EscrowInfo {
                address: None,
                escrow_type: EscrowType::Source,
                creator: *sender,
                created_at: now_seconds,
                salt: req.salt,
            },
        ),
        },
{
    create(factory, EscrowType::Source, sender, now_nanos, now_seconds, label)
}

/// Requests a destination escrow; see `create`.
pub fn execute_create_destination_escrow(
    factory: &mut Factory,
    sender: &String,
    now_nanos: u64,
    now_seconds: u64,
    label: &String,
) -> (r: Result<InstantiateRequest, ContractError>)
    requires
        old(factory).wf(),
        old(factory).escrows@.len() < u64::MAX,
    ensures
        final(factory).wf(),
        final(factory).config == old(factory).config,
        match r {
            Err(e) => e == ContractError::EscrowAlreadyExists && salt_taken(
                old(factory).escrows@,
                salt_of(sender@, now_nanos, label@),
            ) && *final(factory) == *old(factory),
            Ok(req) => !salt_taken(old(factory).escrows@, salt_of(sender@, now_nanos, label@)) && req.correlation_id == old(factory).escrows@.len() && req.code_id == old(factory).config.destination_escrow_code_id && final(factory).escrows@ == old(factory).escrows@.push(
            EscrowInfo {
                address: None,
                escrow_type: EscrowType::Destination,
                creator: *sender,
                created_at: now_seconds,
                salt: req.salt,
            },
        ),
        },
{
    create(factory, EscrowType::Destination, sender, now_nanos, now_seconds, label)
}

/// Records the address of a created instance in exactly the row whose
/// creation request carried `correlation_id`.
pub fn reply(factory: &mut Factory, correlation_id: u64, contract_address: String) -> (r: Result<
    (),
    ContractError,
>)
    requires
        old(factory).wf(),
    ensures
        final(factory).wf(),
        final(factory).config == old(factory).config,
        !old(factory).pending(correlation_id) ==> r == Err::<(), ContractError>(
            ContractError::UnknownCreation,
        ) && *final(factory) == *old(factory),
        old(factory).pending(correlation_id) ==> r is Ok && final(factory).escrows@ == old(factory).escrows@.update(
            correlation_id as int,
            EscrowInfo {
                address: Some(contract_address),
                ..old(factory).escrows@[correlation_id as int]
            },
        ),
{
    if correlation_id >= factory.escrows.len() as u64 {
        return Err(ContractError::UnknownCreation);
    }
    let k = correlation_id as usize;
    if factory.escrows[k].address.is_some() {
        return Err(ContractError::UnknownCreation);
    }
    factory.escrows[k].address = Some(contract_address);
    Ok(())
}

/// Changes the code ids that are supplied; only the owner may.
pub fn execute_update_code_ids(
    factory: &mut Factory,
    sender: &String,
    source_escrow_code_id: Option<u64>,
    destination_escrow_code_id: Option<u64>,
) -> (r: Result<(), ContractError>)
    requires
        old(factory).wf(),
    ensures
        final(factory).wf(),
        sender@ != old(factory).config.owner@ ==> r == Err::<(), ContractError>(
            ContractError::Unauthorized,
        ) && *final(factory) == *old(factory),
        sender@ == old(factory).config.owner@ ==> r is Ok && final(factory).escrows
            == old(factory).escrows && final(factory).config.owner == old(factory).config.owner
            && final(factory).config.source_escrow_code_id == match source_escrow_code_id {
            Some(c) => c,
            None => old(factory).config.source_escrow_code_id,
        } && final(factory).config.destination_escrow_code_id
            == match destination_escrow_code_id {
            Some(c) => c,
            None => old(factory).config.destination_escrow_code_id,
        },
{
    if !same_string(sender, &factory.config.owner) {
        return Err(ContractError::Unauthorized);
    }
    if let Some(c) = source_escrow_code_id {
        factory.config.source_escrow_code_id = c;
    }
    if let Some(c) = destination_escrow_code_id {
        factory.config.destination_escrow_code_id = c;
    }
    Ok(())
}

/// Hands the factory to `new_owner`; only the owner may.
pub fn execute_update_owner(factory: &mut Factory, sender: &String, new_owner: String) -> (r:
    Result<(), ContractError>)
    requires
        old(factory).wf(),
    ensures
        final(factory).wf(),
        sender@ != old(factory).config.owner@ ==> r == Err::<(), ContractError>(
            ContractError::Unauthorized,
        ) && *final(factory) == *old(factory),
        sender@ == old(factory).config.owner@ ==> r is Ok && *final(factory) == (Factory {
            config: Config { owner: new_owner, ..old(factory).config },
            ..*old(factory)
        }),
{
    if !same_string(sender, &factory.config.owner) {
        return Err(ContractError::Unauthorized);
    }
    factory.config.owner = new_owner;
    Ok(())
}

/// The address registered under `salt`: `None` when no row has that salt,
/// `Some(None)` while the creation result is awaited.
pub fn query_escrow_address(factory: &Factory, salt: &String) -> (r: Option<Option<String>>)
    requires
        factory.wf(),
    ensures
        !salt_taken(factory.escrows@, salt@) ==> r is None,
        forall|i: int|
            0 <= i < factory.escrows@.len() && factory.escrows@[i].salt@ == salt@ ==> r == Some(
                factory.escrows@[i].address,
            ),
{
    match find_salt(&factory.escrows, salt) {
        Some(i) => Some(factory.escrows[i].duplicate().address),
        None => None,
    }
}

/// A page of the registry in creation order: at most `limit` rows (30 when
/// not given, never more than 100), after the row whose salt is
/// `start_after`. A `start_after` that names no row gives an empty page.
pub fn query_escrow_list(factory: &Factory, start_after: Option<String>, limit: Option<u32>) -> (r:
    Vec<EscrowInfo>)
    requires
        factory.wf(),
    ensures
        ({
            let n: int = match limit {
                Some(l) => if l < 100 {
                    l as int
                } else {
                    100
                },
                None => 30,
            };
            match start_after {
                None => r@ == factory.escrows@.take(
                    if n < factory.escrows@.len() {
                        n
                    } else {
                        factory.escrows@.len() as int
                    },
                ),
                Some(s) => (!salt_taken(factory.escrows@, s@) ==> r@.len() == 0) && forall|i: int|
                    0 <= i < factory.escrows@.len() && factory.escrows@[i].salt@ == s@ ==> r@
                        == factory.escrows@.subrange(
                        i + 1,
                        if i + 1 + n < factory.escrows@.len() {
                            i + 1 + n
                        } else {
                            factory.escrows@.len() as int
                        },
                    ),
            }
        }),
{
    let n: usize = match limit {
        Some(l) => if l < 100 {
            l as usize
        } else {
            100
        },
        None => 30,
    };
    let len = factory.escrows.len();
    let start: usize = match &start_after {
        None => 0,
        Some(s) => match find_salt(&factory.escrows, s) {
            Some(i) => i + 1,
            None => {
                return Vec::new();
            },
        },
    };
    let end: usize = if n < len - start {
        start + n
    } else {
        len
    };
    let mut page: Vec<EscrowInfo> = Vec::new();
    let mut i: usize = start;
    while i < end
        invariant
            start <= i <= end <= factory.escrows@.len(),
            page@ == factory.escrows@.subrange(start as int, i as int),
        decreases end - i,
    {
        page.push(factory.escrows[i].duplicate());
        i = i + 1;
        proof {
            assert(page@ =~= factory.escrows@.subrange(start as int, i as int));
        }
    }
    proof {
        if start_after is None {
            assert(page@ =~= factory.escrows@.take(end as int));
        }
    }
    page
}

} // verus!
