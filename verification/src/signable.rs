//! Which drafted transactions can be signed. Most that a daemon has got wrong end in an error; on some
//! the signing code panics or exhausts the stack, and those are told apart here.

use tari_transaction_components::offline_signing::models::PrepareOneSidedTransactionForSigningResult;

use vstd::prelude::*;

use crate::amount::{can_add_totals, total, totals_add_up};
use crate::tari::{
    first_address_size, key_ids, measure_memo, memo_size, open_memos, output_amounts,
    read_first_address_size, read_key_ids, read_open_memos, read_output_amounts,
    read_recipient_amounts, read_sealed_memos, recipient_amounts, sealed_memos,
};
use crate::text::{chars_of, texts};

verus! {

/// The longest part of a memo whose length is written in one byte.
pub const PART_LIMIT: usize = 255;

/// Bytes to which a shorter memo with an address is padded.
pub const MEMO_PADDING: usize = 130;

/// Dots up to which a key id is followed. Each may lead to a key inside the key, which takes a part of
/// the stack. How many a stack holds depends on the machine; a thread of the usual size holds more
/// than these.
pub const KEY_DOTS_LIMIT: usize = 64;

/// How long an address is by its features, and how long it is when it is written. The two differ if
/// it carries a payment id that its features do not tell of.
#[derive(Clone, Copy, PartialEq, Eq, Structural, Debug)]
pub struct AddressSize {
    pub declared: usize,
    pub written: usize,
}

/// The lengths in a memo: the address of the kinds of memos that hold one, the payment id, and the
/// number of output hashes of the kind that lists them.
#[derive(Clone, Copy, PartialEq, Eq, Structural, Debug)]
pub struct MemoSize {
    pub address: Option<AddressSize>,
    pub payment_id: usize,
    pub hashes: Option<usize>,
}

impl AddressSize {
    pub open spec fn consistent(self) -> bool {
        self.declared == self.written
    }
}

impl MemoSize {
    /// The bytes of a memo with an address, before padding. Its tag, its meta data and the lengths of
    /// its parts take 8 bytes; the kind with hashes has an amount and one more length.
    pub open spec fn unpadded(self, address: AddressSize) -> int {
        match self.hashes {
            Some(hashes) => 17 + address.written + self.payment_id + 32 * hashes,
            None => 8 + address.written + self.payment_id,
        }
    }

    /// A memo that can be written: a length byte is enough for each part of one with an address.
    pub open spec fn writable(self) -> bool {
        self.address matches Some(address) ==> {
            &&& address.written <= PART_LIMIT
            &&& self.payment_id <= PART_LIMIT
            &&& self.hashes matches Some(hashes) ==> hashes <= PART_LIMIT
        }
    }

    /// A memo that can be sealed: it can be written, and fills the buffer that is made for it.
    pub open spec fn sealable(self) -> bool {
        &&& self.writable()
        &&& self.address matches Some(address) ==> address.consistent() || self.unpadded(address)
            <= MEMO_PADDING
    }

    /// Tells whether a memo can be written.
    pub fn is_writable(&self) -> (r: bool)
        ensures
            r == self.writable(),
    {
        match self.address {
            Some(address) => address.written <= PART_LIMIT && self.payment_id <= PART_LIMIT
                && match self.hashes {
                Some(hashes) => hashes <= PART_LIMIT,
                None => true,
            },
            None => true,
        }
    }

    /// Tells whether a memo can be sealed.
    pub fn is_sealable(&self) -> (r: bool)
        ensures
            r == self.sealable(),
    {
        if !self.is_writable() {
            return false;
        }
        match self.address {
            Some(address) => {
                let unpadded: usize = match self.hashes {
                    Some(hashes) => 17 + address.written + self.payment_id + 32 * hashes,
                    None => 8 + address.written + self.payment_id,
                };
                address.declared == address.written || unpadded <= MEMO_PADDING
            },
            None => true,
        }
    }
}

/// How many dots a text holds.
pub open spec fn dots(s: Seq<char>) -> nat
    decreases s.len(),
{
    if s.len() == 0 {
        0
    } else if s.last() == '.' {
        dots(s.drop_last()) + 1
    } else {
        dots(s.drop_last())
    }
}

/// Counts the dots in a text.
pub fn count_dots(s: &str) -> (r: usize)
    ensures
        r == dots(s@),
{
    let chars = chars_of(s);
    let mut count: usize = 0;
    let mut i: usize = 0;
    while i < chars.len()
        invariant
            i <= chars.len(),
            count <= i,
            count == dots(chars@.take(i as int)),
        decreases chars.len() - i,
    {
        proof {
            let next = chars@.take(i + 1);
            assert(next.drop_last() =~= chars@.take(i as int));
            assert(next.last() == chars@[i as int]);
        }
        if chars[i] == '.' {
            count = count + 1;
        }
        i = i + 1;
    }
    proof {
        assert(chars@.take(chars@.len() as int) =~= chars@);
    }
    count
}

/// A draft that can be signed, with success or an error: its totals can be added; the memos that are
/// sealed into outputs can be sealed, and the others can be written; the address of the first
/// recipient, which goes into the memo of the change, has the length that its features tell; and no
/// key id nests too deep.
pub open spec fn signable(payload: PrepareOneSidedTransactionForSigningResult) -> bool {
    &&& totals_add_up(output_amounts(payload), recipient_amounts(payload))
    &&& forall|i: int|
        0 <= i < sealed_memos(payload).len() ==> memo_size(
            #[trigger] sealed_memos(payload)[i],
        ).sealable()
    &&& forall|i: int|
        0 <= i < open_memos(payload).len() ==> memo_size(
            #[trigger] open_memos(payload)[i],
        ).writable()
    &&& first_address_size(payload) matches Some(address) ==> address.consistent()
    &&& forall|i: int|
        0 <= i < key_ids(payload).len() ==> dots(#[trigger] key_ids(payload)[i]) <= KEY_DOTS_LIMIT
}

/// Tells whether the memos of a draft can be sealed or written.
fn memos_fit(payload: &PrepareOneSidedTransactionForSigningResult) -> (r: bool)
    ensures
        r == ({
            &&& forall|i: int|
                0 <= i < sealed_memos(*payload).len() ==> memo_size(
                    #[trigger] sealed_memos(*payload)[i],
                ).sealable()
            &&& forall|i: int|
                0 <= i < open_memos(*payload).len() ==> memo_size(
                    #[trigger] open_memos(*payload)[i],
                ).writable()
        }),
{
    let sealed = read_sealed_memos(payload);
    let mut i: usize = 0;
    while i < sealed.len()
        invariant
            i <= sealed.len(),
            sealed@ == sealed_memos(*payload),
            forall|j: int| 0 <= j < i ==> memo_size(#[trigger] sealed@[j]).sealable(),
        decreases sealed.len() - i,
    {
        if !measure_memo(&sealed[i]).is_sealable() {
            assert(!memo_size(sealed_memos(*payload)[i as int]).sealable());
            return false;
        }
        i = i + 1;
    }
    let open = read_open_memos(payload);
    let mut i: usize = 0;
    while i < open.len()
        invariant
            i <= open.len(),
            open@ == open_memos(*payload),
            forall|j: int| 0 <= j < i ==> memo_size(#[trigger] open@[j]).writable(),
        decreases open.len() - i,
    {
        if !measure_memo(&open[i]).is_writable() {
            assert(!memo_size(open_memos(*payload)[i as int]).writable());
            return false;
        }
        i = i + 1;
    }
    true
}

/// Tells whether no key id of a draft nests too deep.
fn keys_are_shallow(payload: &PrepareOneSidedTransactionForSigningResult) -> (r: bool)
    ensures
        r == forall|i: int|
            0 <= i < key_ids(*payload).len() ==> dots(#[trigger] key_ids(*payload)[i])
                <= KEY_DOTS_LIMIT,
{
    let ids = read_key_ids(payload);
    let mut i: usize = 0;
    while i < ids.len()
        invariant
            i <= ids.len(),
            texts(ids@) == key_ids(*payload),
            forall|j: int| 0 <= j < i ==> dots(#[trigger] key_ids(*payload)[j]) <= KEY_DOTS_LIMIT,
        decreases ids.len() - i,
    {
        assert(key_ids(*payload)[i as int] == ids@[i as int]@);
        if count_dots(ids[i].as_str()) > KEY_DOTS_LIMIT {
            return false;
        }
        i = i + 1;
    }
    true
}

/// Tells whether a draft can be signed.
pub fn is_signable(payload: &PrepareOneSidedTransactionForSigningResult) -> (r: bool)
    ensures
        r == signable(*payload),
{
    let outputs = read_output_amounts(payload);
    let recipients = read_recipient_amounts(payload);
    if !can_add_totals(&outputs, &recipients) || !memos_fit(payload) {
        return false;
    }
    if let Some(address) = read_first_address_size(payload) {
        if address.declared != address.written {
            return false;
        }
    }
    keys_are_shallow(payload)
}

/// A memo with an address can be written if and only if each of its parts has at most 255 bytes, and its
/// hashes are at most 255; one without an address always can. It can be sealed if moreover its address
/// is as long as it declares, or the memo is padded to 130 bytes anyway.
pub proof fn memos_have_room_for_their_parts(memo: MemoSize, writable: bool, sealable: bool)
    requires
        call_ensures(MemoSize::is_writable, (&memo,), writable),
        call_ensures(MemoSize::is_sealable, (&memo,), sealable),
    ensures
        memo.address is None ==> writable && sealable,
        sealable ==> writable,
        memo.address matches Some(address) ==> {
            let hashes: int = match memo.hashes {
                Some(n) => n as int,
                None => 0,
            };
            let framing: int = if memo.hashes is Some {
                17
            } else {
                8
            };
            &&& writable <==> address.written < 256 && memo.payment_id < 256 && hashes < 256
            &&& sealable <==> writable && (address.written == address.declared || framing
                + address.written + memo.payment_id + 32 * hashes <= 130)
        },
{
}

/// Dots are counted one by one: every dot counts once, and nothing else counts.
pub proof fn dots_add_up(a: Seq<char>, b: Seq<char>, c: char)
    ensures
        dots(seq![c]) == if c == '.' {
            1nat
        } else {
            0
        },
        dots(a + b) == dots(a) + dots(b),
    decreases b.len(),
{
    reveal_with_fuel(dots, 2);
    assert(seq![c].drop_last() =~= Seq::empty());
    if b.len() == 0 {
        assert(a + b =~= a);
    } else {
        dots_add_up(a, b.drop_last(), c);
        assert((a + b).drop_last() =~= a + b.drop_last());
    }
}

/// A draft can be signed unless one of five things is in the way: totals that overflow together, a memo
/// to be sealed that has no room, another memo that has none, a first recipient whose address is not
/// as long as it declares, or a key id with more than 64 dots.
pub proof fn drafts_are_signable_unless_something_is_in_the_way(
    payload: PrepareOneSidedTransactionForSigningResult,
    r: bool,
)
    requires
        call_ensures(is_signable, (&payload,), r),
    ensures
        !r <==> {
            ||| {
                let (outputs, recipients) = (output_amounts(payload), recipient_amounts(payload));
                &&& total(outputs) <= u64::MAX
                &&& total(recipients) <= u64::MAX
                &&& total(outputs) + total(recipients) > u64::MAX
            }
            ||| exists|i: int|
                0 <= i < sealed_memos(payload).len() && !memo_size(
                    #[trigger] sealed_memos(payload)[i],
                ).sealable()
            ||| exists|i: int|
                0 <= i < open_memos(payload).len() && !memo_size(
                    #[trigger] open_memos(payload)[i],
                ).writable()
            ||| first_address_size(payload) matches Some(address) && address.declared
                != address.written
            ||| exists|i: int|
                0 <= i < key_ids(payload).len() && dots(#[trigger] key_ids(payload)[i]) > 64
        },
{
}

} // verus!
