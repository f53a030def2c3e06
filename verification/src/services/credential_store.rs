//! The account store as the flows see it: lookup by credentials and by
//! identifier, and two narrow updates. This store keeps its accounts in
//! memory; a deployment answers the same four questions from its database.

use crate::models::player::{Player, PlayerView};
use vstd::prelude::*;

verus! {

/// A byte with an ASCII capital letter replaced by its small letter.
pub open spec fn ascii_lower(byte: u8) -> u8 {
    if 65 <= byte <= 90 {
        (byte + 32) as u8
    } else {
        byte
    }
}

/// `true` where two usernames are the same but for the case of ASCII
/// letters, compared byte by byte in UTF-8.
pub open spec fn same_username(left: Seq<char>, right: Seq<char>) -> bool {
    let a = vstd::utf8::encode_utf8(left);
    let b = vstd::utf8::encode_utf8(right);
    a.len() == b.len() && forall|i: int| 0 <= i < a.len() ==> ascii_lower(#[trigger] a[i]) == ascii_lower(b[i])
}

/// `true` where `account` has this username and this password digest. An
/// account without a digest has no credentials.
pub open spec fn has_credentials(account: PlayerView, username: Seq<char>, digest: Seq<char>) -> bool {
    same_username(account.username, username) && account.password_hash == Some(digest)
}

/// `true` where no two accounts share an identifier.
pub open spec fn distinct_ids(accounts: Seq<PlayerView>) -> bool {
    forall|i: int, j: int|
        0 <= i < accounts.len() && 0 <= j < accounts.len() && i != j ==> #[trigger] accounts[i].uuid
            != #[trigger] accounts[j].uuid
}

/// `true` where `index` is the place of the first account with these
/// credentials.
pub open spec fn is_first_with_credentials(
    accounts: Seq<PlayerView>,
    username: Seq<char>,
    digest: Seq<char>,
    index: int,
) -> bool {
    &&& 0 <= index < accounts.len()
    &&& has_credentials(accounts[index], username, digest)
    &&& forall|j: int| 0 <= j < index ==> !has_credentials(#[trigger] accounts[j], username, digest)
}

/// The first account with these credentials, if any has them.
pub open spec fn account_with_credentials(
    accounts: Seq<PlayerView>,
    username: Seq<char>,
    digest: Seq<char>,
) -> Option<PlayerView> {
    if exists|i: int| is_first_with_credentials(accounts, username, digest, i) {
        Some(accounts[choose|i: int| is_first_with_credentials(accounts, username, digest, i)])
    } else {
        None
    }
}

/// `true` where `index` is the place of the first account with the
/// identifier `id`.
pub open spec fn is_first_with_id(accounts: Seq<PlayerView>, id: u128, index: int) -> bool {
    &&& 0 <= index < accounts.len()
    &&& accounts[index].uuid == id
    &&& forall|j: int| 0 <= j < index ==> (#[trigger] accounts[j]).uuid != id
}

/// The place of the first account with the identifier `id`, if there is one.
pub open spec fn place_of_id(accounts: Seq<PlayerView>, id: u128) -> Option<int> {
    if exists|i: int| is_first_with_id(accounts, id, i) {
        Some(choose|i: int| is_first_with_id(accounts, id, i))
    } else {
        None
    }
}

/// The account with the identifier `id`, if there is one.
pub open spec fn account_with_id(accounts: Seq<PlayerView>, id: u128) -> Option<PlayerView> {
    match place_of_id(accounts, id) {
        Some(index) => Some(accounts[index]),
        None => None,
    }
}

/// `account` with a new password digest: the digest is stored, the demand to
/// change the password is cleared, and the update time is `now`.
pub open spec fn with_password_digest(account: PlayerView, digest: Seq<char>, now: i64) -> PlayerView {
    PlayerView {
        password_hash: Some(digest),
        password_change_required: false,
        updated_at: now,
        ..account
    }
}

/// `account` after a login at the time `now`.
pub open spec fn with_login_at(account: PlayerView, now: i64) -> PlayerView {
    PlayerView { last_login: Some(now), updated_at: now, ..account }
}

/// `account` with its invalidation cutoff set to `cutoff`.
pub open spec fn with_cutoff(account: PlayerView, cutoff: i64) -> PlayerView {
    PlayerView { tokens_invalidated_before: Some(cutoff), ..account }
}

/// The accounts after the password digest of the account `id` was replaced.
/// Without such an account nothing changes.
pub open spec fn after_password_update(
    accounts: Seq<PlayerView>,
    id: u128,
    digest: Seq<char>,
    now: i64,
) -> Seq<PlayerView> {
    match place_of_id(accounts, id) {
        Some(index) => accounts.update(index, with_password_digest(accounts[index], digest, now)),
        None => accounts,
    }
}

/// The accounts after the account `id` logged in at the time `now`. Without
/// such an account nothing changes.
pub open spec fn after_login(accounts: Seq<PlayerView>, id: u128, now: i64) -> Seq<PlayerView> {
    match place_of_id(accounts, id) {
        Some(index) => accounts.update(index, with_login_at(accounts[index], now)),
        None => accounts,
    }
}

/// The accounts after the tokens of the account `id` issued before `cutoff`
/// were invalidated. Without such an account nothing changes.
pub open spec fn after_invalidation(accounts: Seq<PlayerView>, id: u128, cutoff: i64) -> Seq<
    PlayerView,
> {
    match place_of_id(accounts, id) {
        Some(index) => accounts.update(index, with_cutoff(accounts[index], cutoff)),
        None => accounts,
    }
}

/// The number of accounts that an update of the account `id` touches.
pub open spec fn rows_affected(accounts: Seq<PlayerView>, id: u128) -> u64 {
    if account_with_id(accounts, id) is Some {
        1
    } else {
        0
    }
}

/// The view of an optional account.
pub open spec fn found_view(found: Option<Player>) -> Option<PlayerView> {
    match found {
        Some(player) => Some(player@),
        None => None,
    }
}

/// The first place of an identifier is the place that [`place_of_id`] names.
pub proof fn lemma_first_with_id(accounts: Seq<PlayerView>, id: u128, index: int)
    requires
        is_first_with_id(accounts, id, index),
    ensures
        place_of_id(accounts, id) == Some(index),
{
    let chosen = choose|i: int| is_first_with_id(accounts, id, i);
    assert(is_first_with_id(accounts, id, chosen));
    if chosen < index {
        assert(accounts[chosen].uuid != id);
    }
    if index < chosen {
        assert(accounts[index].uuid != id);
    }
}

/// Where some account has the identifier, [`place_of_id`] names a place.
pub proof fn lemma_some_place(accounts: Seq<PlayerView>, id: u128, index: int)
    requires
        0 <= index < accounts.len(),
        accounts[index].uuid == id,
    ensures
        place_of_id(accounts, id) is Some,
    decreases index,
{
    if forall|j: int| 0 <= j < index ==> (#[trigger] accounts[j]).uuid != id {
        assert(is_first_with_id(accounts, id, index));
    } else {
        let earlier = choose|j: int| 0 <= j < index && (#[trigger] accounts[j]).uuid == id;
        lemma_some_place(accounts, id, earlier);
    }
}

/// Where no account has the identifier, [`place_of_id`] names no place.
pub proof fn lemma_no_place(accounts: Seq<PlayerView>, id: u128)
    requires
        forall|i: int| 0 <= i < accounts.len() ==> (#[trigger] accounts[i]).uuid != id,
    ensures
        place_of_id(accounts, id) is None,
{
    assert(forall|i: int| !is_first_with_id(accounts, id, i));
}

/// After the password digest of an account was replaced, the account is found
/// under its identifier with the new digest and without the demand to change
/// the password.
pub proof fn lemma_password_update_found(
    accounts: Seq<PlayerView>,
    id: u128,
    digest: Seq<char>,
    now: i64,
    account: PlayerView,
)
    requires
        account_with_id(accounts, id) == Some(account),
    ensures
        account_with_id(after_password_update(accounts, id, digest, now), id) == Some(
            with_password_digest(account, digest, now),
        ),
{
    let place = place_of_id(accounts, id)->0;
    assert(is_first_with_id(accounts, id, place));
    let after = after_password_update(accounts, id, digest, now);
    assert forall|j: int| 0 <= j < place implies (#[trigger] after[j]).uuid != id by {
        assert(accounts[j].uuid != id);
    }
    lemma_first_with_id(after, id, place);
}

/// After the password digest of an account was replaced, the account is the
/// one that its username and the new digest find, provided that no other
/// account has its username.
pub proof fn lemma_password_update_credentials(
    accounts: Seq<PlayerView>,
    id: u128,
    digest: Seq<char>,
    now: i64,
    account: PlayerView,
)
    requires
        account_with_id(accounts, id) == Some(account),
        forall|j: int|
            0 <= j < accounts.len() && place_of_id(accounts, id) != Some(j) ==> !same_username(
                (#[trigger] accounts[j]).username,
                account.username,
            ),
    ensures
        account_with_credentials(
            after_password_update(accounts, id, digest, now),
            account.username,
            digest,
        ) == Some(with_password_digest(account, digest, now)),
{
    let place = place_of_id(accounts, id)->0;
    assert(is_first_with_id(accounts, id, place));
    let after = after_password_update(accounts, id, digest, now);
    assert(same_username(account.username, account.username));
    assert(has_credentials(after[place], account.username, digest));
    assert forall|j: int| 0 <= j < place implies !has_credentials(
        #[trigger] after[j],
        account.username,
        digest,
    ) by {
        assert(after[j] == accounts[j]);
        assert(place_of_id(accounts, id) != Some(j));
    }
    lemma_first_with_credentials(after, account.username, digest, place);
}

/// The first account with given credentials is the one at the first place.
pub proof fn lemma_first_with_credentials(
    accounts: Seq<PlayerView>,
    username: Seq<char>,
    digest: Seq<char>,
    index: int,
)
    requires
        is_first_with_credentials(accounts, username, digest, index),
    ensures
        account_with_credentials(accounts, username, digest) == Some(accounts[index]),
{
    let chosen = choose|i: int| is_first_with_credentials(accounts, username, digest, i);
    assert(is_first_with_credentials(accounts, username, digest, chosen));
    if chosen < index {
        assert(!has_credentials(accounts[chosen], username, digest));
    }
    if index < chosen {
        assert(!has_credentials(accounts[index], username, digest));
    }
}

/// Compares two usernames without regard to the case of ASCII letters.
pub fn usernames_match(left: &str, right: &str) -> (same: bool)
    ensures
        same == same_username(left@, right@),
{
    let a = left.as_bytes();
    let b = right.as_bytes();
    if a.len() != b.len() {
        return false;
    }
    let mut i: usize = 0;
    while i < a.len()
        invariant
            a@ == vstd::utf8::encode_utf8(left@),
            b@ == vstd::utf8::encode_utf8(right@),
            a@.len() == b@.len(),
            i <= a@.len(),
            forall|k: int| 0 <= k < i ==> ascii_lower(#[trigger] a@[k]) == ascii_lower(b@[k]),
        decreases a@.len() - i,
    {
        let x: u8 = a[i];
        let y: u8 = b[i];
        let lower_x: u8 = if 65 <= x && x <= 90 {
            x + 32
        } else {
            x
        };
        let lower_y: u8 = if 65 <= y && y <= 90 {
            y + 32
        } else {
            y
        };
        if lower_x != lower_y {
            return false;
        }
        i = i + 1;
    }
    true
}

/// The accounts of a deployment, held in memory. [`CredentialStore::insert`]
/// refuses a second account with an identifier that is taken, so the
/// identifiers of a store that was built through it are distinct.
pub struct CredentialStore {
    players: Vec<Player>,
}

impl View for CredentialStore {
    type V = Seq<PlayerView>;

    closed spec fn view(&self) -> Seq<PlayerView> {
        Seq::new(self.players@.len(), |i: int| self.players@[i]@)
    }
}

impl CredentialStore {
    /// A store without accounts.
    pub fn new() -> (store: Self)
        ensures
            store@ == Seq::<PlayerView>::empty(),
    {
        let store = CredentialStore { players: Vec::new() };
        assert(store@ =~= Seq::<PlayerView>::empty());
        store
    }

    /// The place of the first account `id`, if there is one.
    fn place_of(&self, id: u128) -> (place: Option<usize>)
        ensures
            match place {
                Some(index) => place_of_id(self@, id) == Some(index as int),
                None => place_of_id(self@, id) is None,
            },
            place matches Some(index) ==> index < self.players@.len(),
            self@.len() == self.players@.len(),
    {
        let mut i: usize = 0;
        while i < self.players.len()
            invariant
                i <= self.players@.len(),
                self@.len() == self.players@.len(),
                forall|k: int| 0 <= k < i ==> (#[trigger] self@[k]).uuid != id,
            decreases self.players@.len() - i,
        {
            if self.players[i].uuid == id {
                proof {
                    lemma_first_with_id(self@, id, i as int);
                }
                return Some(i);
            }
            i = i + 1;
        }
        proof {
            lemma_no_place(self@, id);
        }
        None
    }

    /// Adds `player` unless an account has its identifier already; says
    /// whether it was added. Distinct identifiers stay distinct.
    pub fn insert(&mut self, player: Player) -> (added: bool)
        ensures
            added == (account_with_id(old(self)@, player.uuid) is None),
            added ==> final(self)@ == old(self)@.push(player@),
            !added ==> final(self)@ == old(self)@,
            distinct_ids(old(self)@) ==> distinct_ids(final(self)@),
    {
        match self.place_of(player.uuid) {
            Some(index) => false,
            None => {
                let ghost before = self@;
                let ghost added = player@;
                self.players.push(player);
                proof {
                    assert(self@ =~= before.push(added));
                    assert forall|i: int| 0 <= i < before.len() implies (#[trigger] before[i]).uuid
                        != added.uuid by {
                        if before[i].uuid == added.uuid {
                            lemma_some_place(before, added.uuid, i);
                        }
                    }
                }
                true
            },
        }
    }

    /// The first account whose username is `username`, but for the case of
    /// ASCII letters, and whose password digest is `digest`.
    pub fn find_by_username_and_digest(&self, username: &str, digest: &str) -> (found: Option<
        Player,
    >)
        ensures
            found_view(found) == account_with_credentials(self@, username@, digest@),
    {
        let mut i: usize = 0;
        while i < self.players.len()
            invariant
                i <= self.players@.len(),
                self@.len() == self.players@.len(),
                forall|k: int| 0 <= k < i ==> !has_credentials(#[trigger] self@[k], username@, digest@),
            decreases self.players@.len() - i,
        {
            let player = &self.players[i];
            let digest_matches = match &player.password_hash {
                Some(stored) => *stored == String::from_str(digest),
                None => false,
            };
            if digest_matches && usernames_match(player.username.as_str(), username) {
                proof {
                    assert(self@[i as int] == player@);
                    lemma_first_with_credentials(self@, username@, digest@, i as int);
                }
                return Some(player.clone());
            }
            assert(!has_credentials(self@[i as int], username@, digest@));
            i = i + 1;
        }
        assert(forall|k: int| !is_first_with_credentials(self@, username@, digest@, k));
        None
    }

    /// The account with the identifier `id`.
    pub fn find_by_id(&self, id: u128) -> (found: Option<Player>)
        ensures
            found_view(found) == account_with_id(self@, id),
    {
        match self.place_of(id) {
            Some(index) => Some(self.players[index].clone()),
            None => None,
        }
    }

    /// Stores `digest` as the password digest of the account `id`, clears its
    /// demand to change the password and sets its update time to `now`.
    /// Returns the number of accounts changed: 1, or 0 where there is no such
    /// account. Distinct identifiers stay distinct.
    pub fn update_password_digest(&mut self, id: u128, digest: &str, now: i64) -> (affected: u64)
        ensures
            final(self)@ == after_password_update(old(self)@, id, digest@, now),
            affected == rows_affected(old(self)@, id),
            distinct_ids(old(self)@) ==> distinct_ids(final(self)@),
    {
        match self.place_of(id) {
            Some(index) => {
                let ghost before = self@;
                let current = &self.players[index];
                let updated = Player {
                    uuid: current.uuid,
                    username: current.username.clone(),
                    password_hash: Some(String::from_str(digest)),
                    password_change_required: false,
                    tokens_invalidated_before: current.tokens_invalidated_before,
                    created_at: current.created_at,
                    updated_at: now,
                    last_login: current.last_login,
                };
                self.players.set(index, updated);
                assert(self@ =~= after_password_update(before, id, digest@, now));
                1
            },
            None => {
                assert(self@ =~= after_password_update(self@, id, digest@, now));
                0
            },
        }
    }

    /// Records a login of the account `id` at the time `now`. A store without
    /// such an account stays as it is.
    pub fn touch_last_login(&mut self, id: u128, now: i64)
        ensures
            final(self)@ == after_login(old(self)@, id, now),
            distinct_ids(old(self)@) ==> distinct_ids(final(self)@),
    {
        match self.place_of(id) {
            Some(index) => {
                let ghost before = self@;
                let current = &self.players[index];
                let updated = Player {
                    uuid: current.uuid,
                    username: current.username.clone(),
                    password_hash: match &current.password_hash {
                        Some(stored) => Some(stored.clone()),
                        None => None,
                    },
                    password_change_required: current.password_change_required,
                    tokens_invalidated_before: current.tokens_invalidated_before,
                    created_at: current.created_at,
                    updated_at: now,
                    last_login: Some(now),
                };
                self.players.set(index, updated);
                assert(self@ =~= after_login(before, id, now));
            },
            None => {
                assert(self@ =~= after_login(self@, id, now));
            },
        }
    }

    /// Invalidates the tokens of the account `id` that were issued before
    /// `cutoff`. Returns the number of accounts changed: 1, or 0 where there
    /// is no such account.
    pub fn invalidate_tokens_before(&mut self, id: u128, cutoff: i64) -> (affected: u64)
        ensures
            final(self)@ == after_invalidation(old(self)@, id, cutoff),
            affected == rows_affected(old(self)@, id),
            distinct_ids(old(self)@) ==> distinct_ids(final(self)@),
    {
        match self.place_of(id) {
            Some(index) => {
                let ghost before = self@;
                let current = &self.players[index];
                let updated = Player {
                    uuid: current.uuid,
                    username: current.username.clone(),
                    password_hash: match &current.password_hash {
                        Some(stored) => Some(stored.clone()),
                        None => None,
                    },
                    password_change_required: current.password_change_required,
                    tokens_invalidated_before: Some(cutoff),
                    created_at: current.created_at,
                    updated_at: current.updated_at,
                    last_login: current.last_login,
                };
                self.players.set(index, updated);
                assert(self@ =~= after_invalidation(before, id, cutoff));
                1
            },
            None => {
                assert(self@ =~= after_invalidation(self@, id, cutoff));
                0
            },
        }
    }
}

} // verus!
