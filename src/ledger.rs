use vstd::prelude::*;
use crate::state::Key;

verus! {

/// What an instruction sees of one supplied account.
#[derive(Clone, Debug)]
pub struct AccountState {
    pub key: Key,
    pub lamports: u64,
    pub data: Vec<u8>,
    pub owner: Key,
    pub is_signer: bool,
}

pub struct AccountView {
    pub key: Seq<u8>,
    pub lamports: u64,
    pub data: Seq<u8>,
    pub owner: Seq<u8>,
    pub is_signer: bool,
}

impl View for AccountState {
    type V = AccountView;

    open spec fn view(&self) -> AccountView {
        AccountView {
            key: self.key@,
            lamports: self.lamports,
            data: self.data@,
            owner: self.owner@,
            is_signer: self.is_signer,
        }
    }
}

/// The views of the supplied accounts, in order.
pub open spec fn accounts_view(accounts: Seq<AccountState>) -> Seq<AccountView> {
    accounts.map_values(|a: AccountState| a@)
}

/// A host ledger operation that an instruction asks for. The host performs
/// them in order, each atomically, and aborts the whole transaction on the
/// first that fails.
#[derive(Clone, Debug)]
pub enum LedgerAction {
    /// Move currency between two accounts.
    Transfer { from: Key, to: Key, lamports: u64 },
    /// Reserve zeroed storage at a derived account, signed by its seeds.
    Allocate { account: Key, space: u64, signer_seeds: Vec<Vec<u8>> },
    /// Hand a derived account to a program, signed by its seeds.
    Assign { account: Key, owner: Key, signer_seeds: Vec<Vec<u8>> },
    /// Open a new account funded by `from`.
    CreateAccount { from: Key, to: Key, lamports: u64, space: u64, owner: Key },
}

pub enum ActionView {
    Transfer { from: Seq<u8>, to: Seq<u8>, lamports: u64 },
    Allocate { account: Seq<u8>, space: u64, signer_seeds: Seq<Seq<u8>> },
    Assign { account: Seq<u8>, owner: Seq<u8>, signer_seeds: Seq<Seq<u8>> },
    CreateAccount { from: Seq<u8>, to: Seq<u8>, lamports: u64, space: u64, owner: Seq<u8> },
}

impl View for LedgerAction {
    type V = ActionView;

    open spec fn view(&self) -> ActionView {
        match self {
            LedgerAction::Transfer { from, to, lamports } => ActionView::Transfer {
                from: from@,
                to: to@,
                lamports: *lamports,
            },
            LedgerAction::Allocate { account, space, signer_seeds } => ActionView::Allocate {
                account: account@,
                space: *space,
                signer_seeds: signer_seeds.deep_view(),
            },
            LedgerAction::Assign { account, owner, signer_seeds } => ActionView::Assign {
                account: account@,
                owner: owner@,
                signer_seeds: signer_seeds.deep_view(),
            },
            LedgerAction::CreateAccount { from, to, lamports, space, owner } => ActionView::CreateAccount {
                from: from@,
                to: to@,
                lamports: *lamports,
                space: *space,
                owner: owner@,
            },
        }
    }
}

/// The views of a list of actions, in order.
pub open spec fn actions_view(actions: Seq<LedgerAction>) -> Seq<ActionView> {
    actions.map_values(|a: LedgerAction| a@)
}

/// What a successful instruction does: the ledger operations, then, where
/// present, the new data of the first supplied account.
#[derive(Clone, Debug)]
pub struct Outcome {
    pub actions: Vec<LedgerAction>,
    pub record_data: Option<Vec<u8>>,
}

pub struct OutcomeView {
    pub actions: Seq<ActionView>,
    pub record_data: Option<Seq<u8>>,
}

impl View for Outcome {
    type V = OutcomeView;

    open spec fn view(&self) -> OutcomeView {
        OutcomeView {
            actions: actions_view(self.actions@),
            record_data: match self.record_data {
                Some(d) => Some(d@),
                None => None,
            },
        }
    }
}

/// The view of an instruction's result.
pub open spec fn result_view(r: Result<Outcome, crate::error::ProcessError>) -> Result<OutcomeView, crate::error::ProcessError> {
    match r {
        Ok(o) => Ok(o@),
        Err(e) => Err(e),
    }
}

/// The rent-exempt minimum balance for each storage size the program opens,
/// as the host's rent schedule gives it.
#[derive(Clone, Copy, Debug, PartialEq, Eq, Structural)]
pub struct MinimumBalances {
    pub interface_record: u64,
    pub whitelist_record: u64,
    pub empty_account: u64,
}

} // verus!
