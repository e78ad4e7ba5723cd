//! The scorer: managers, registered users and badges of one reputation ledger.
use vstd::prelude::*;
use crate::address::{copy_list, id_of, ids, ids_of, position, text_of, Address, Approvals, Bytes32};
use crate::ledger::Ledger;
use crate::table::{Plain, Table};

verus! {

/// The highest score that a badge can carry.
pub const MAX_SCORE: u32 = 10000;

/// The constant by which this build of the scorer is known.
pub const VERSION: u32 = 1;

/// What identifies a badge: its name and the address that issues it.
#[derive(Debug, PartialEq, Eq)]
pub struct BadgeId {
    pub name: String,
    pub issuer: Address,
}

impl View for BadgeId {
    type V = (Seq<char>, Seq<u8>);

    open spec fn view(&self) -> (Seq<char>, Seq<u8>) {
        (self.name@, self.issuer@)
    }
}

impl Clone for BadgeId {
    fn clone(&self) -> (copy: BadgeId)
        ensures
            copy@ == self@,
    {
        BadgeId { name: self.name.clone(), issuer: self.issuer.clone() }
    }
}

impl Plain for BadgeId {
    fn same(&self, other: &BadgeId) -> (same: bool) {
        self.name == other.name && self.issuer == other.issuer
    }

    fn duplicate(&self) -> (copy: BadgeId) {
        self.clone()
    }
}

/// Why a scorer left its state as it was.
#[derive(Clone, Copy, Debug, PartialEq, Eq, Structural)]
pub enum ScorerError {
    /// `initialize` had succeeded before.
    ContractAlreadyInitialized,
    /// The principal did not approve, or lacks the role that the operation asks for.
    Unauthorized,
    /// The address is a manager already.
    ManagerAlreadyExists,
    /// The address is no manager.
    ManagerNotFound,
    /// No list of managers is stored.
    ManagersNotFound,
    /// No creator is stored, where its address was asked for.
    ScorerCreatorDoesNotExist,
    /// The user is registered and active.
    UserAlreadyExist,
    /// The user is not registered, or inactive.
    UserDoesNotExist,
    /// A badge with that name and issuer exists.
    BadgeAlreadyExists,
    /// No badge with that name and issuer exists.
    BadgeNotFound,
    /// The score is above `MAX_SCORE`.
    InvalidScoreRange,
    /// A text that must not be empty is empty.
    EmptyArg,
    /// No creator is stored, where its role was to be checked.
    ScorerCreatorNotFound,
}

/// What a scorer publishes when an operation has changed it.
#[derive(Debug)]
pub enum ScorerEvent {
    /// The scorer was initialised; the event carries all that was stored.
    Initialized {
        creator: Address,
        managers: Vec<Address>,
        badges: Table<BadgeId, u32>,
        name: String,
        description: String,
        icon: String,
    },
    /// The creator asked for the code with this hash to take over.
    Upgraded { new_wasm_hash: Bytes32 },
    ManagerAdded { sender: Address, manager: Address },
    ManagerRemoved { sender: Address, manager: Address },
    UserAdded { user: Address },
    UserRemoved { user: Address },
    BadgeAdded { badge: BadgeId, score: u32, sender: Address },
    BadgeRemoved { badge: BadgeId, score: u32, sender: Address },
}

impl ScorerEvent {
    /// The pair of topics under which the event is published.
    pub fn topics(&self) -> (topics: (&'static str, &'static str))
        ensures
            topics.0@ == match self {
                ScorerEvent::Initialized { .. } => "init"@,
                ScorerEvent::Upgraded { .. } => "upgrade"@,
                ScorerEvent::ManagerAdded { .. } | ScorerEvent::ManagerRemoved { .. } => "manager"@,
                ScorerEvent::UserAdded { .. } | ScorerEvent::UserRemoved { .. } => "user"@,
                ScorerEvent::BadgeAdded { .. } | ScorerEvent::BadgeRemoved { .. } => "badge"@,
            },
            topics.1@ == match self {
                ScorerEvent::Initialized { .. } => "contract"@,
                ScorerEvent::Upgraded { .. } => "wasm"@,
                ScorerEvent::ManagerAdded { .. }
                | ScorerEvent::UserAdded { .. }
                | ScorerEvent::BadgeAdded { .. } => "add"@,
                ScorerEvent::ManagerRemoved { .. }
                | ScorerEvent::UserRemoved { .. }
                | ScorerEvent::BadgeRemoved { .. } => "remove"@,
            },
    {
        match self {
            ScorerEvent::Initialized { .. } => ("init", "contract"),
            ScorerEvent::Upgraded { .. } => ("upgrade", "wasm"),
            ScorerEvent::ManagerAdded { .. } => ("manager", "add"),
            ScorerEvent::ManagerRemoved { .. } => ("manager", "remove"),
            ScorerEvent::UserAdded { .. } => ("user", "add"),
            ScorerEvent::UserRemoved { .. } => ("user", "remove"),
            ScorerEvent::BadgeAdded { .. } => ("badge", "add"),
            ScorerEvent::BadgeRemoved { .. } => ("badge", "remove"),
        }
    }
}

/// What a scorer stores, slot by slot.  A slot that was never written is `None`.
pub struct ScorerState {
    pub initialized: bool,
    pub creator: Option<Seq<u8>>,
    pub managers: Option<Seq<Seq<u8>>>,
    pub users: Option<Map<Seq<u8>, bool>>,
    pub badges: Option<Map<(Seq<char>, Seq<u8>), u32>>,
    pub name: Option<Seq<char>>,
    pub description: Option<Seq<char>>,
    pub icon: Option<Seq<char>>,
}

impl ScorerState {
    /// The state in which no slot was written.
    pub open spec fn blank() -> ScorerState {
        ScorerState {
            initialized: false,
            creator: None,
            managers: None,
            users: None,
            badges: None,
            name: None,
            description: None,
            icon: None,
        }
    }

    /// The managers, in the order in which they were added.
    pub open spec fn manager_list(self) -> Seq<Seq<u8>> {
        match self.managers {
            Some(list) => list,
            None => Seq::empty(),
        }
    }

    /// The registered users, each with its flag: `true` for active.
    pub open spec fn user_map(self) -> Map<Seq<u8>, bool> {
        match self.users {
            Some(users) => users,
            None => Map::empty(),
        }
    }

    /// The badges, each with its score.
    pub open spec fn badge_map(self) -> Map<(Seq<char>, Seq<u8>), u32> {
        match self.badges {
            Some(badges) => badges,
            None => Map::empty(),
        }
    }

    /// Whether `address` is a manager.
    pub open spec fn is_manager(self, address: Seq<u8>) -> bool {
        self.manager_list().contains(address)
    }

    /// Whether `user` is registered and active.
    pub open spec fn is_active(self, user: Seq<u8>) -> bool {
        self.user_map().contains_key(user) && self.user_map()[user]
    }

    /// What `initialize` makes of this state.
    pub open spec fn initialize(
        self,
        approvals: Set<Seq<u8>>,
        creator: Seq<u8>,
        badges: Map<(Seq<char>, Seq<u8>), u32>,
        name: Seq<char>,
        description: Seq<char>,
        icon: Seq<char>,
    ) -> Result<ScorerState, ScorerError> {
        if name.len() == 0 || description.len() == 0 || icon.len() == 0 {
            Err(ScorerError::EmptyArg)
        } else if self.initialized {
            Err(ScorerError::ContractAlreadyInitialized)
        } else if !approvals.contains(creator) {
            Err(ScorerError::Unauthorized)
        } else {
            Ok(
                ScorerState {
                    initialized: true,
                    creator: Some(creator),
                    managers: Some(seq![creator]),
                    users: Some(Map::empty()),
                    badges: Some(badges),
                    name: Some(name),
                    description: Some(description),
                    icon: Some(icon),
                },
            )
        }
    }

    /// Whether `upgrade` is granted, and why not.
    pub open spec fn upgrade(self, approvals: Set<Seq<u8>>) -> Result<ScorerState, ScorerError> {
        match self.creator {
            None => Err(ScorerError::ScorerCreatorNotFound),
            Some(creator) => if approvals.contains(creator) {
                Ok(self)
            } else {
                Err(ScorerError::Unauthorized)
            },
        }
    }

    /// Whether `sender` may change the managers, and why not.
    pub open spec fn creator_gate(
        self,
        approvals: Set<Seq<u8>>,
        sender: Seq<u8>,
    ) -> Result<(), ScorerError> {
        if !approvals.contains(sender) {
            Err(ScorerError::Unauthorized)
        } else if self.creator is None {
            Err(ScorerError::ScorerCreatorNotFound)
        } else if self.creator != Some(sender) {
            Err(ScorerError::Unauthorized)
        } else {
            Ok(())
        }
    }

    /// Whether `sender` may change the badges.
    pub open spec fn manager_gate(self, approvals: Set<Seq<u8>>, sender: Seq<u8>) -> bool {
        approvals.contains(sender) && self.is_manager(sender)
    }

    /// What `add_manager` makes of this state.
    pub open spec fn add_manager(
        self,
        approvals: Set<Seq<u8>>,
        sender: Seq<u8>,
        new_manager: Seq<u8>,
    ) -> Result<ScorerState, ScorerError> {
        match self.creator_gate(approvals, sender) {
            Err(e) => Err(e),
            Ok(_) => if self.is_manager(new_manager) {
                Err(ScorerError::ManagerAlreadyExists)
            } else {
                Ok(ScorerState { managers: Some(self.manager_list().push(new_manager)), ..self })
            },
        }
    }

    /// What `remove_manager` makes of this state.
    pub open spec fn remove_manager(
        self,
        approvals: Set<Seq<u8>>,
        sender: Seq<u8>,
        manager: Seq<u8>,
    ) -> Result<ScorerState, ScorerError> {
        match self.creator_gate(approvals, sender) {
            Err(e) => Err(e),
            Ok(_) => if !self.is_manager(manager) {
                Err(ScorerError::ManagerNotFound)
            } else {
                Ok(
                    ScorerState {
                        managers: Some(self.manager_list().remove_value(manager)),
                        ..self
                    },
                )
            },
        }
    }

    /// What `add_user` makes of this state.
    pub open spec fn add_user(
        self,
        approvals: Set<Seq<u8>>,
        user: Seq<u8>,
    ) -> Result<ScorerState, ScorerError> {
        if !approvals.contains(user) {
            Err(ScorerError::Unauthorized)
        } else if self.is_active(user) {
            Err(ScorerError::UserAlreadyExist)
        } else {
            Ok(ScorerState { users: Some(self.user_map().insert(user, true)), ..self })
        }
    }

    /// What `remove_user` makes of this state.
    pub open spec fn remove_user(
        self,
        approvals: Set<Seq<u8>>,
        user: Seq<u8>,
    ) -> Result<ScorerState, ScorerError> {
        if !approvals.contains(user) {
            Err(ScorerError::Unauthorized)
        } else if !self.is_active(user) {
            Err(ScorerError::UserDoesNotExist)
        } else {
            Ok(ScorerState { users: Some(self.user_map().insert(user, false)), ..self })
        }
    }

    /// What `add_badge` makes of this state.
    pub open spec fn add_badge(
        self,
        approvals: Set<Seq<u8>>,
        sender: Seq<u8>,
        name: Seq<char>,
        issuer: Seq<u8>,
        score: u32,
    ) -> Result<ScorerState, ScorerError> {
        if !self.manager_gate(approvals, sender) {
            Err(ScorerError::Unauthorized)
        } else if name.len() == 0 {
            Err(ScorerError::EmptyArg)
        } else if score > MAX_SCORE {
            Err(ScorerError::InvalidScoreRange)
        } else if self.badge_map().contains_key((name, issuer)) {
            Err(ScorerError::BadgeAlreadyExists)
        } else {
            Ok(ScorerState { badges: Some(self.badge_map().insert((name, issuer), score)), ..self })
        }
    }

    /// What `remove_badge` makes of this state.
    pub open spec fn remove_badge(
        self,
        approvals: Set<Seq<u8>>,
        sender: Seq<u8>,
        name: Seq<char>,
        issuer: Seq<u8>,
    ) -> Result<ScorerState, ScorerError> {
        if !self.manager_gate(approvals, sender) {
            Err(ScorerError::Unauthorized)
        } else if !self.badge_map().contains_key((name, issuer)) {
            Err(ScorerError::BadgeNotFound)
        } else {
            Ok(ScorerState { badges: Some(self.badge_map().remove((name, issuer))), ..self })
        }
    }
}

/// One call that may change a scorer, with the approvals that accompany it.
pub enum ScorerCall {
    Initialize {
        approvals: Set<Seq<u8>>,
        creator: Seq<u8>,
        badges: Map<(Seq<char>, Seq<u8>), u32>,
        name: Seq<char>,
        description: Seq<char>,
        icon: Seq<char>,
    },
    AddManager { approvals: Set<Seq<u8>>, sender: Seq<u8>, manager: Seq<u8> },
    RemoveManager { approvals: Set<Seq<u8>>, sender: Seq<u8>, manager: Seq<u8> },
    AddUser { approvals: Set<Seq<u8>>, user: Seq<u8> },
    RemoveUser { approvals: Set<Seq<u8>>, user: Seq<u8> },
    AddBadge { approvals: Set<Seq<u8>>, sender: Seq<u8>, name: Seq<char>, issuer: Seq<u8>, score: u32 },
    RemoveBadge { approvals: Set<Seq<u8>>, sender: Seq<u8>, name: Seq<char>, issuer: Seq<u8> },
}

impl ScorerState {
    /// What `call` makes of this state.
    pub open spec fn apply(self, call: ScorerCall) -> Result<ScorerState, ScorerError> {
        match call {
            ScorerCall::Initialize { approvals, creator, badges, name, description, icon } => self.initialize(
                approvals,
                creator,
                badges,
                name,
                description,
                icon,
            ),
            ScorerCall::AddManager { approvals, sender, manager } => self.add_manager(
                approvals,
                sender,
                manager,
            ),
            ScorerCall::RemoveManager { approvals, sender, manager } => self.remove_manager(
                approvals,
                sender,
                manager,
            ),
            ScorerCall::AddUser { approvals, user } => self.add_user(approvals, user),
            ScorerCall::RemoveUser { approvals, user } => self.remove_user(approvals, user),
            ScorerCall::AddBadge { approvals, sender, name, issuer, score } => self.add_badge(
                approvals,
                sender,
                name,
                issuer,
                score,
            ),
            ScorerCall::RemoveBadge { approvals, sender, name, issuer } => self.remove_badge(
                approvals,
                sender,
                name,
                issuer,
            ),
        }
    }

    /// The state after `call`: a call that fails changes nothing.
    pub open spec fn after(self, call: ScorerCall) -> ScorerState {
        match self.apply(call) {
            Ok(next) => next,
            Err(_) => self,
        }
    }

    /// The state after `calls`, one after the other.
    pub open spec fn after_all(self, calls: Seq<ScorerCall>) -> ScorerState
        decreases calls.len(),
    {
        if calls.len() == 0 {
            self
        } else {
            self.after_all(calls.drop_last()).after(calls.last())
        }
    }
}

/// One scorer: the slots that it has written so far.
#[derive(Debug)]
pub struct ScorerContract {
    initialized: bool,
    creator: Option<Address>,
    managers: Option<Vec<Address>>,
    users: Option<Table<Address, bool>>,
    badges: Option<Table<BadgeId, u32>>,
    name: Option<String>,
    description: Option<String>,
    icon: Option<String>,
}

impl View for ScorerContract {
    type V = ScorerState;

    closed spec fn view(&self) -> ScorerState {
        ScorerState {
            initialized: self.initialized,
            creator: match self.creator {
                Some(creator) => Some(creator@),
                None => None,
            },
            managers: match self.managers {
                Some(list) => Some(ids(list@)),
                None => None,
            },
            users: match self.users {
                Some(users) => Some(users@),
                None => None,
            },
            badges: match self.badges {
                Some(badges) => Some(badges@),
                None => None,
            },
            name: match self.name {
                Some(text) => Some(text@),
                None => None,
            },
            description: match self.description {
                Some(text) => Some(text@),
                None => None,
            },
            icon: match self.icon {
                Some(text) => Some(text@),
                None => None,
            },
        }
    }
}

impl ScorerContract {
    /// A scorer that has stored nothing yet.
    pub fn new() -> (scorer: ScorerContract)
        ensures
            scorer@ == ScorerState::blank(),
    {
        ScorerContract {
            initialized: false,
            creator: None,
            managers: None,
            users: None,
            badges: None,
            name: None,
            description: None,
            icon: None,
        }
    }

    /// The scorer that has stored what is given, slot by slot; `None` for a
    /// slot that was never written.
    pub fn restore(
        initialized: bool,
        creator: Option<Address>,
        managers: Option<Vec<Address>>,
        users: Option<Table<Address, bool>>,
        badges: Option<Table<BadgeId, u32>>,
        name: Option<String>,
        description: Option<String>,
        icon: Option<String>,
    ) -> (scorer: ScorerContract)
        ensures
            scorer@ == (ScorerState {
                initialized,
                creator: id_of(creator),
                managers: ids_of(managers),
                users: match users {
                    Some(users) => Some(users@),
                    None => None,
                },
                badges: match badges {
                    Some(badges) => Some(badges@),
                    None => None,
                },
                name: text_of(name),
                description: text_of(description),
                icon: text_of(icon),
            }),
    {
        ScorerContract { initialized, creator, managers, users, badges, name, description, icon }
    }

    /// The constant that identifies this build of the scorer.
    pub fn contract_version() -> (version: u32)
        ensures
            version == VERSION,
    {
        VERSION
    }

    /// Whether `manager` is among the managers.  A scorer without a list of
    /// managers has none.
    fn manager_exists(&self, manager: &Address) -> (exists: bool)
        ensures
            exists == self@.is_manager(manager@),
    {
        match &self.managers {
            Some(list) => position(list, manager).is_some(),
            None => {
                proof {
                    assert(!Seq::<Seq<u8>>::empty().contains(manager@));
                }
                false
            },
        }
    }

    /// Adds a badge with `score` under `name` and `issuer`.
    ///
    /// `sender` must have approved and be a manager; the name must not be
    /// empty, the score not above `MAX_SCORE`, and the badge new.  The four
    /// are tested in this order.  A score of zero is accepted.
    pub fn add_badge(
        &mut self,
        approvals: &Approvals,
        sender: Address,
        name: String,
        issuer: Address,
        score: u32,
    ) -> (result: Result<ScorerEvent, ScorerError>)
        ensures
            match old(self)@.add_badge(approvals@, sender@, name@, issuer@, score) {
                Ok(next) => {
                    &&& final(self)@ == next
                    &&& result matches Ok(ScorerEvent::BadgeAdded { badge, score: published, sender: by })
                    &&& badge@ == (name@, issuer@)
                    &&& published == score
                    &&& by@ == sender@
                },
                Err(error) => {
                    &&& result matches Err(e)
                    &&& e == error
                    &&& *final(self) == *old(self)
                },
            },
    {
        if !approvals.includes(&sender) || !self.manager_exists(&sender) {
            return Err(ScorerError::Unauthorized);
        }
        if name.as_str().is_empty() {
            return Err(ScorerError::EmptyArg);
        }
        if score > MAX_SCORE {
            return Err(ScorerError::InvalidScoreRange);
        }
        let badge = BadgeId { name, issuer };
        let held = match &self.badges {
            Some(badges) => badges.contains_key(&badge),
            None => false,
        };
        if held {
            return Err(ScorerError::BadgeAlreadyExists);
        }
        let mut badges = match self.badges.take() {
            Some(badges) => badges,
            None => Table::new(),
        };
        badges.set(badge.duplicate(), score);
        self.badges = Some(badges);
        Ok(ScorerEvent::BadgeAdded { badge, score, sender })
    }

    /// Removes the badge under `name` and `issuer`.
    ///
    /// `sender` must have approved and be a manager, and the badge must exist.
    /// The event carries the score that the badge had.
    pub fn remove_badge(
        &mut self,
        approvals: &Approvals,
        sender: Address,
        name: String,
        issuer: Address,
    ) -> (result: Result<ScorerEvent, ScorerError>)
        ensures
            match old(self)@.remove_badge(approvals@, sender@, name@, issuer@) {
                Ok(next) => {
                    &&& final(self)@ == next
                    &&& result matches Ok(ScorerEvent::BadgeRemoved { badge, score, sender: by })
                    &&& badge@ == (name@, issuer@)
                    &&& score == old(self)@.badge_map()[(name@, issuer@)]
                    &&& by@ == sender@
                },
                Err(error) => {
                    &&& result matches Err(e)
                    &&& e == error
                    &&& *final(self) == *old(self)
                },
            },
    {
        if !approvals.includes(&sender) || !self.manager_exists(&sender) {
            return Err(ScorerError::Unauthorized);
        }
        let badge = BadgeId { name, issuer };
        let held = match &self.badges {
            Some(badges) => badges.contains_key(&badge),
            None => false,
        };
        if !held {
            return Err(ScorerError::BadgeNotFound);
        }
        let mut badges = match self.badges.take() {
            Some(badges) => badges,
            None => Table::new(),
        };
        let score = match badges.remove(&badge) {
            Some(score) => score,
            None => 0,
        };
        self.badges = Some(badges);
        Ok(ScorerEvent::BadgeRemoved { badge, score, sender })
    }

    /// Stores the first state of the scorer: `scorer_creator` as creator and
    /// only manager, `scorer_badges`, no user, and the three texts.
    ///
    /// None of the texts may be empty, the scorer must not have been
    /// initialised before, and `scorer_creator` must have approved; the three
    /// are tested in this order.
    pub fn initialize(
        &mut self,
        approvals: &Approvals,
        scorer_creator: Address,
        scorer_badges: Table<BadgeId, u32>,
        name: String,
        description: String,
        icon: String,
    ) -> (result: Result<ScorerEvent, ScorerError>)
        ensures
            match old(self)@.initialize(
                approvals@,
                scorer_creator@,
                scorer_badges@,
                name@,
                description@,
                icon@,
            ) {
                Ok(next) => {
                    &&& final(self)@ == next
                    &&& result matches Ok(
                        ScorerEvent::Initialized {
                            creator,
                            managers,
                            badges,
                            name: published_name,
                            description: published_description,
                            icon: published_icon,
                        },
                    )
                    &&& creator@ == scorer_creator@
                    &&& ids(managers@) == seq![scorer_creator@]
                    &&& badges@ == scorer_badges@
                    &&& published_name@ == name@
                    &&& published_description@ == description@
                    &&& published_icon@ == icon@
                },
                Err(error) => {
                    &&& result matches Err(e)
                    &&& e == error
                    &&& *final(self) == *old(self)
                },
            },
    {
        if name.as_str().is_empty() || description.as_str().is_empty() || icon.as_str().is_empty() {
            return Err(ScorerError::EmptyArg);
        }
        if self.initialized {
            return Err(ScorerError::ContractAlreadyInitialized);
        }
        if !approvals.includes(&scorer_creator) {
            return Err(ScorerError::Unauthorized);
        }
        let mut managers: Vec<Address> = Vec::new();
        managers.push(scorer_creator.clone());
        let event = ScorerEvent::Initialized {
            creator: scorer_creator.clone(),
            managers: copy_list(&managers),
            badges: scorer_badges.clone(),
            name: name.clone(),
            description: description.clone(),
            icon: icon.clone(),
        };
        proof {
            assert(ids(managers@) =~= seq![scorer_creator@]);
        }
        self.creator = Some(scorer_creator);
        self.badges = Some(scorer_badges);
        self.users = Some(Table::new());
        self.managers = Some(managers);
        self.initialized = true;
        self.name = Some(name);
        self.description = Some(description);
        self.icon = Some(icon);
        Ok(event)
    }

    /// Whether `initialize` has succeeded on this scorer.
    pub fn is_initialized(&self) -> (initialized: bool)
        ensures
            initialized == self@.initialized,
    {
        self.initialized
    }

    /// Whether `address` is the creator, if one is stored.
    fn is_owner(&self, address: &Address) -> (owner: Result<bool, ScorerError>)
        ensures
            match self@.creator {
                Some(creator) => owner == Ok::<bool, ScorerError>(creator == address@),
                None => owner == Err::<bool, ScorerError>(ScorerError::ScorerCreatorNotFound),
            },
    {
        match &self.creator {
            Some(creator) => Ok(*creator == *address),
            None => Err(ScorerError::ScorerCreatorNotFound),
        }
    }

    /// Tests that `sender` approved and is the creator.
    fn creator_gate(&self, approvals: &Approvals, sender: &Address) -> (gate: Result<(), ScorerError>)
        ensures
            gate == self@.creator_gate(approvals@, sender@),
    {
        if !approvals.includes(sender) {
            return Err(ScorerError::Unauthorized);
        }
        match self.is_owner(sender) {
            Err(error) => Err(error),
            Ok(false) => Err(ScorerError::Unauthorized),
            Ok(true) => Ok(()),
        }
    }

    /// Makes `new_manager` a manager, behind those that are.
    ///
    /// `sender` must have approved and be the creator, and `new_manager` must
    /// not be a manager yet.
    pub fn add_manager(
        &mut self,
        approvals: &Approvals,
        sender: Address,
        new_manager: Address,
    ) -> (result: Result<ScorerEvent, ScorerError>)
        ensures
            match old(self)@.add_manager(approvals@, sender@, new_manager@) {
                Ok(next) => {
                    &&& final(self)@ == next
                    &&& result matches Ok(ScorerEvent::ManagerAdded { sender: by, manager })
                    &&& by@ == sender@
                    &&& manager@ == new_manager@
                },
                Err(error) => {
                    &&& result matches Err(e)
                    &&& e == error
                    &&& *final(self) == *old(self)
                },
            },
    {
        match self.creator_gate(approvals, &sender) {
            Err(error) => {
                return Err(error);
            },
            Ok(_) => {},
        }
        if self.manager_exists(&new_manager) {
            return Err(ScorerError::ManagerAlreadyExists);
        }
        let mut managers = match self.managers.take() {
            Some(list) => list,
            None => Vec::new(),
        };
        let ghost before = managers@;
        managers.push(new_manager.clone());
        proof {
            assert(ids(managers@) =~= ids(before).push(new_manager@));
            assert(ids(before) =~= old(self)@.manager_list());
        }
        self.managers = Some(managers);
        Ok(ScorerEvent::ManagerAdded { sender, manager: new_manager })
    }

    /// Takes `manager_to_remove` out of the managers; the others keep their order.
    ///
    /// `sender` must have approved and be the creator, and
    /// `manager_to_remove` must be a manager.  The last manager can leave too.
    pub fn remove_manager(
        &mut self,
        approvals: &Approvals,
        sender: Address,
        manager_to_remove: Address,
    ) -> (result: Result<ScorerEvent, ScorerError>)
        ensures
            match old(self)@.remove_manager(approvals@, sender@, manager_to_remove@) {
                Ok(next) => {
                    &&& final(self)@ == next
                    &&& result matches Ok(ScorerEvent::ManagerRemoved { sender: by, manager })
                    &&& by@ == sender@
                    &&& manager@ == manager_to_remove@
                },
                Err(error) => {
                    &&& result matches Err(e)
                    &&& e == error
                    &&& *final(self) == *old(self)
                },
            },
    {
        match self.creator_gate(approvals, &sender) {
            Err(error) => {
                return Err(error);
            },
            Ok(_) => {},
        }
        let found = match &self.managers {
            Some(list) => position(list, &manager_to_remove),
            None => None,
        };
        match found {
            None => {
                proof {
                    assert(!Seq::<Seq<u8>>::empty().contains(manager_to_remove@));
                }
                Err(ScorerError::ManagerNotFound)
            },
            Some(index) => {
                let mut managers = match self.managers.take() {
                    Some(list) => list,
                    None => Vec::new(),
                };
                let ghost before = managers@;
                managers.remove(index);
                proof {
                    assert(ids(managers@) =~= ids(before).remove(index as int));
                }
                self.managers = Some(managers);
                Ok(ScorerEvent::ManagerRemoved { sender, manager: manager_to_remove })
            },
        }
    }

    /// Registers `user` as active.
    ///
    /// `user` must have approved, and must not be active already.  A user
    /// that was removed can be added again.
    pub fn add_user(&mut self, approvals: &Approvals, user: Address) -> (result: Result<
        ScorerEvent,
        ScorerError,
    >)
        ensures
            match old(self)@.add_user(approvals@, user@) {
                Ok(next) => {
                    &&& final(self)@ == next
                    &&& result matches Ok(ScorerEvent::UserAdded { user: added })
                    &&& added@ == user@
                },
                Err(error) => {
                    &&& result matches Err(e)
                    &&& e == error
                    &&& *final(self) == *old(self)
                },
            },
    {
        if !approvals.includes(&user) {
            return Err(ScorerError::Unauthorized);
        }
        if self.user_is_active(&user) {
            return Err(ScorerError::UserAlreadyExist);
        }
        let mut users = match self.users.take() {
            Some(users) => users,
            None => Table::new(),
        };
        users.set(user.clone(), true);
        self.users = Some(users);
        Ok(ScorerEvent::UserAdded { user })
    }

    /// Marks `user` as inactive; the entry stays.
    ///
    /// `user` must have approved, and must be active.
    pub fn remove_user(&mut self, approvals: &Approvals, user: Address) -> (result: Result<
        ScorerEvent,
        ScorerError,
    >)
        ensures
            match old(self)@.remove_user(approvals@, user@) {
                Ok(next) => {
                    &&& final(self)@ == next
                    &&& result matches Ok(ScorerEvent::UserRemoved { user: removed })
                    &&& removed@ == user@
                },
                Err(error) => {
                    &&& result matches Err(e)
                    &&& e == error
                    &&& *final(self) == *old(self)
                },
            },
    {
        if !approvals.includes(&user) {
            return Err(ScorerError::Unauthorized);
        }
        if !self.user_is_active(&user) {
            return Err(ScorerError::UserDoesNotExist);
        }
        let mut users = match self.users.take() {
            Some(users) => users,
            None => Table::new(),
        };
        users.set(user.clone(), false);
        self.users = Some(users);
        Ok(ScorerEvent::UserRemoved { user })
    }

    /// Whether `user` is registered and active.
    pub fn user_is_active(&self, user: &Address) -> (active: bool)
        ensures
            active == self@.is_active(user@),
    {
        match &self.users {
            Some(users) => match users.get(user) {
                Some(flag) => flag,
                None => false,
            },
            None => false,
        }
    }

    /// Grants the swap of the scorer's code for the code with
    /// `new_wasm_hash`, and says what to publish before the swap.
    ///
    /// A creator must be stored, and must have approved.
    pub fn grant_upgrade(
        &self,
        approvals: &Approvals,
        new_wasm_hash: Bytes32,
    ) -> (result: Result<ScorerEvent, ScorerError>)
        ensures
            match self@.upgrade(approvals@) {
                Ok(_) => {
                    &&& result matches Ok(ScorerEvent::Upgraded { new_wasm_hash: published })
                    &&& published@ == new_wasm_hash@
                },
                Err(error) => result matches Err(e) && e == error,
            },
    {
        match &self.creator {
            None => Err(ScorerError::ScorerCreatorNotFound),
            Some(creator) => {
                if approvals.includes(creator) {
                    Ok(ScorerEvent::Upgraded { new_wasm_hash })
                } else {
                    Err(ScorerError::Unauthorized)
                }
            },
        }
    }

    /// Swaps the code of the scorer, which runs at `current_contract`, for
    /// the code with `new_wasm_hash`.  What the scorer has stored stays.
    ///
    /// A creator must be stored, and must have approved; otherwise the code
    /// stays too.
    pub fn upgrade(
        &self,
        ledger: &mut Ledger,
        approvals: &Approvals,
        current_contract: &Address,
        new_wasm_hash: Bytes32,
    ) -> (result: Result<ScorerEvent, ScorerError>)
        ensures
            match self@.upgrade(approvals@) {
                Ok(_) => {
                    &&& final(ledger)@ == old(ledger)@.insert(current_contract@, new_wasm_hash@)
                    &&& result matches Ok(ScorerEvent::Upgraded { new_wasm_hash: published })
                    &&& published@ == new_wasm_hash@
                },
                Err(error) => {
                    &&& result matches Err(e)
                    &&& e == error
                    &&& *final(ledger) == *old(ledger)
                },
            },
    {
        match self.grant_upgrade(approvals, new_wasm_hash) {
            Ok(event) => {
                ledger.place(current_contract.clone(), new_wasm_hash);
                Ok(event)
            },
            Err(error) => Err(error),
        }
    }

    /// The registered users, each with its flag; none where no user was ever added.
    pub fn get_users(&self) -> (users: Table<Address, bool>)
        ensures
            users@ == self@.user_map(),
    {
        match &self.users {
            Some(users) => users.clone(),
            None => Table::new(),
        }
    }

    /// The badges, each with its score; none where no badge was ever stored.
    pub fn get_badges(&self) -> (badges: Table<BadgeId, u32>)
        ensures
            badges@ == self@.badge_map(),
    {
        match &self.badges {
            Some(badges) => badges.clone(),
            None => Table::new(),
        }
    }

    /// The managers, in the order in which they were added.
    pub fn get_managers(&self) -> (result: Result<Vec<Address>, ScorerError>)
        ensures
            match self@.managers {
                Some(list) => result matches Ok(managers) && ids(managers@) == list,
                None => result matches Err(e) && e == ScorerError::ManagersNotFound,
            },
    {
        match &self.managers {
            Some(list) => Ok(copy_list(list)),
            None => Err(ScorerError::ManagersNotFound),
        }
    }

    /// The creator of the scorer.
    pub fn get_contract_owner(&self) -> (result: Result<Address, ScorerError>)
        ensures
            match self@.creator {
                Some(creator) => result matches Ok(owner) && owner@ == creator,
                None => result matches Err(e) && e == ScorerError::ScorerCreatorDoesNotExist,
            },
    {
        match &self.creator {
            Some(creator) => Ok(creator.clone()),
            None => Err(ScorerError::ScorerCreatorDoesNotExist),
        }
    }

    /// Name, description and icon; the empty text for each that is not stored.
    pub fn get_metadata(&self) -> (metadata: (String, String, String))
        ensures
            metadata.0@ == text_or_empty(self@.name),
            metadata.1@ == text_or_empty(self@.description),
            metadata.2@ == text_or_empty(self@.icon),
    {
        let name = match &self.name {
            Some(text) => text.clone(),
            None => String::new(),
        };
        let description = match &self.description {
            Some(text) => text.clone(),
            None => String::new(),
        };
        let icon = match &self.icon {
            Some(text) => text.clone(),
            None => String::new(),
        };
        (name, description, icon)
    }
}

/// The text of a slot, or the empty text where the slot holds none.
pub open spec fn text_or_empty(slot: Option<Seq<char>>) -> Seq<char> {
    match slot {
        Some(text) => text,
        None => Seq::empty(),
    }
}

} // verus!
