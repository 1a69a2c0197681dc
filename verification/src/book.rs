use vstd::prelude::*;
use crate::admin::{change_round_status_spec, create_user_info_spec, initialize_spec};
use crate::ledger::{AirDropInfos, UserInfo};
use crate::settlement::{admit_spec, fits, purchase_spec};

verus! {

/// The payment that the given participants contributed, summed.
pub open spec fn total_sol(users: Seq<UserInfo>) -> int
    decreases users.len(),
{
    if users.len() == 0 {
        0
    } else {
        total_sol(users.drop_last()) + users.last().sol_amount
    }
}

/// The tokens that the given participants received, summed.
pub open spec fn total_tokens(users: Seq<UserInfo>) -> int
    decreases users.len(),
{
    if users.len() == 0 {
        0
    } else {
        total_tokens(users.drop_last()) + users.last().token_amount
    }
}

/// Everything the sale keeps: the global record and one record per
/// participant. A participant is known by their place in `users`; one whom
/// no operation has provisioned yet holds a blank record there.
pub struct Book {
    pub global: AirDropInfos,
    pub users: Seq<UserInfo>,
}

/// One operation on the sale, with all that decides how it ends.
pub enum Operation {
    Initialize,
    CreateUserInfo { who: int },
    ChangeRoundStatus { status: u8, start_time: u64, end_time: u64 },
    BuyToken {
        who: int,
        amount: u64,
        now: u64,
        payment_transferred: bool,
        tokens_transferred: bool,
    },
}

impl Book {
    /// The sale before any operation, for a given number of participants.
    pub open spec fn opening(participants: nat) -> Book {
        Book {
            global: AirDropInfos::blank(),
            users: Seq::new(participants, |who: int| UserInfo::blank()),
        }
    }

    /// Whether the operation can be carried out on this book: it names a
    /// participant of the book, and a purchase that is admitted fits into
    /// both records.
    pub open spec fn admits(self, operation: Operation) -> bool {
        match operation {
            Operation::Initialize => true,
            Operation::CreateUserInfo { who } => 0 <= who < self.users.len(),
            Operation::ChangeRoundStatus { .. } => true,
            Operation::BuyToken { who, amount, now, .. } => {
                &&& 0 <= who < self.users.len()
                &&& admit_spec(self.global, self.users[who], amount, now) matches Ok(receipt)
                    ==> fits(self.global, self.users[who], receipt)
            },
        }
    }

    /// The book after the operation.
    pub open spec fn apply(self, operation: Operation) -> Book {
        match operation {
            Operation::Initialize => Book { global: initialize_spec(self.global), ..self },
            Operation::CreateUserInfo { who } => Book {
                users: self.users.update(who, create_user_info_spec(self.users[who])),
                ..self
            },
            Operation::ChangeRoundStatus { status, start_time, end_time } => Book {
                global: change_round_status_spec(self.global, status, start_time, end_time),
                ..self
            },
            Operation::BuyToken {
                who,
                amount,
                now,
                payment_transferred,
                tokens_transferred,
            } => {
                let after = purchase_spec(
                    self.global,
                    self.users[who],
                    amount,
                    now,
                    payment_transferred,
                    tokens_transferred,
                );
                Book { global: after.0, users: self.users.update(who, after.1) }
            },
        }
    }

    /// The book after the operations, in their order.
    pub open spec fn run(self, operations: Seq<Operation>) -> Book
        decreases operations.len(),
    {
        if operations.len() == 0 {
            self
        } else {
            self.run(operations.drop_last()).apply(operations.last())
        }
    }

    /// Whether each operation can be carried out on the book that the
    /// operations before it leave.
    pub open spec fn admits_all(self, operations: Seq<Operation>) -> bool
        decreases operations.len(),
    {
        operations.len() == 0 || (self.admits_all(operations.drop_last()) && self.run(
            operations.drop_last(),
        ).admits(operations.last()))
    }

    /// Double-entry consistency: each global total is the sum of the
    /// participants' balances.
    pub open spec fn balanced(self) -> bool {
        &&& self.global.sol_amount == total_sol(self.users)
        &&& self.global.token_amount == total_tokens(self.users)
    }

    /// What holds of every book that operations can reach: it is balanced, a
    /// record that is not initialized holds no balance, and a global record
    /// that is not initialized cannot price a purchase.
    pub open spec fn sound(self) -> bool {
        &&& self.balanced()
        &&& forall|who: int|
            0 <= who < self.users.len() && !(#[trigger] self.users[who]).is_initialized ==> {
                &&& self.users[who].sol_amount == 0
                &&& self.users[who].token_amount == 0
            }
        &&& !self.global.is_initialized ==> {
            &&& self.global.sol_amount == 0
            &&& self.global.token_amount == 0
            &&& !self.global.has_valid_configuration()
        }
    }
}

/// Replacing one participant's record changes each sum by the difference
/// between the new balance and the old one.
pub proof fn lemma_totals_after_update(users: Seq<UserInfo>, who: int, record: UserInfo)
    requires
        0 <= who < users.len(),
    ensures
        total_sol(users.update(who, record)) == total_sol(users) - users[who].sol_amount
            + record.sol_amount,
        total_tokens(users.update(who, record)) == total_tokens(users) - users[who].token_amount
            + record.token_amount,
    decreases users.len(),
{
    let updated = users.update(who, record);
    if who == users.len() - 1 {
        assert(updated.drop_last() =~= users.drop_last());
    } else {
        assert(updated.drop_last() =~= users.drop_last().update(who, record));
        lemma_totals_after_update(users.drop_last(), who, record);
    }
}

/// Blank records sum to nothing.
pub proof fn lemma_totals_of_blank(participants: nat)
    ensures
        total_sol(Book::opening(participants).users) == 0,
        total_tokens(Book::opening(participants).users) == 0,
    decreases participants,
{
    if participants > 0 {
        let users = Book::opening(participants).users;
        assert(users.drop_last() =~= Book::opening((participants - 1) as nat).users);
        lemma_totals_of_blank((participants - 1) as nat);
    }
}

/// The opening book is sound.
pub proof fn lemma_opening_is_sound(participants: nat)
    ensures
        Book::opening(participants).sound(),
{
    lemma_totals_of_blank(participants);
}

/// One operation that the book admits leaves a sound book sound.
pub proof fn lemma_apply_keeps_sound(book: Book, operation: Operation)
    requires
        book.sound(),
        book.admits(operation),
    ensures
        book.apply(operation).sound(),
{
    let after = book.apply(operation);
    match operation {
        Operation::Initialize => {},
        Operation::CreateUserInfo { who } => {
            lemma_totals_after_update(book.users, who, create_user_info_spec(book.users[who]));
        },
        Operation::ChangeRoundStatus { .. } => {},
        Operation::BuyToken { who, amount, now, payment_transferred, tokens_transferred } => {
            let outcome = purchase_spec(
                book.global,
                book.users[who],
                amount,
                now,
                payment_transferred,
                tokens_transferred,
            );
            lemma_totals_after_update(book.users, who, outcome.1);
        },
    }
    assert(after.sound());
}

/// Operations that are admitted one after the other leave a sound book sound.
pub proof fn lemma_run_keeps_sound(book: Book, operations: Seq<Operation>)
    requires
        book.sound(),
        book.admits_all(operations),
    ensures
        book.run(operations).sound(),
    decreases operations.len(),
{
    if operations.len() > 0 {
        lemma_run_keeps_sound(book, operations.drop_last());
        lemma_apply_keeps_sound(book.run(operations.drop_last()), operations.last());
    }
}

/// After every sequence of operations on a sale that started empty, the
/// payment collected is the sum of what the participants contributed, and the
/// tokens distributed are the sum of what they received.
pub proof fn lemma_totals_match_participants(participants: nat, operations: Seq<Operation>)
    requires
        Book::opening(participants).admits_all(operations),
    ensures
        Book::opening(participants).run(operations).balanced(),
        Book::opening(participants).run(operations).global.sol_amount == total_sol(
            Book::opening(participants).run(operations).users,
        ),
        Book::opening(participants).run(operations).global.token_amount == total_tokens(
            Book::opening(participants).run(operations).users,
        ),
{
    lemma_opening_is_sound(participants);
    lemma_run_keeps_sound(Book::opening(participants), operations);
}

} // verus!
