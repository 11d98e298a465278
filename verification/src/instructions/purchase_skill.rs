use crate::arith::{lemma_proportion_bounds, proportion, scaled};
use crate::funds::{pay, payment, Wallet};
use crate::identity::Identity;
use crate::state::purchase::Purchase;
use crate::state::skill_listing::{SkillListing, SkillStatus};
use crate::state::vouch::{backing_stake, lemma_backing_stake_covers, total_backing_stake, Vouch};
use vstd::prelude::*;

verus! {

/// Hundredths of the price that go to the author.
pub const AUTHOR_SHARE_PERCENT: u64 = 60;

/// Hundredths of the price that are set aside for the author's backers.
pub const VOUCHER_POOL_PERCENT: u64 = 40;

/// Why a purchase was not made.
#[derive(Clone, Copy, Debug, PartialEq, Eq, Structural)]
pub enum ErrorCode {
    /// The listing is not on sale.
    SkillNotActive,
    /// The wallet to be paid is not that of the listing's author.
    InvalidAuthor,
    /// The listing has no price.
    PriceMustBePositive,
    /// The buyer cannot cover the author's share, or the author cannot hold it.
    InsufficientFunds,
    /// A counter of the listing or the earnings of a vouch would overflow.
    ArithmeticOverflow,
}

/// The author's part of `price`: sixty hundredths, rounded down.
pub open spec fn author_share(price: u64) -> int {
    proportion(price as int, AUTHOR_SHARE_PERCENT as int, 100)
}

/// The backers' part of `price`: forty hundredths, rounded down. Together
/// with the author's part it may fall short of the price by what rounding
/// took.
pub open spec fn voucher_pool(price: u64) -> int {
    proportion(price as int, VOUCHER_POOL_PERCENT as int, 100)
}

/// Splits `price` into the author's share and the backers' pool.
pub fn split_price(price: u64) -> (parts: (u64, u64))
    ensures
        parts.0 == author_share(price),
        parts.1 == voucher_pool(price),
        parts.0 + parts.1 <= price,
{
    proof {
        lemma_proportion_bounds(price as int, 60, 100);
        lemma_proportion_bounds(price as int, 40, 100);
    }
    (scaled(price, AUTHOR_SHARE_PERCENT, 100), scaled(price, VOUCHER_POOL_PERCENT, 100))
}

/// What `vouch` earns from a pool of `pool` for a sale by `author`, where
/// `total_stake` stands behind the author: its part of the pool in proportion
/// to its stake, rounded down, if it backs the author; nothing otherwise.
pub open spec fn payout(vouch: Vouch, author: Identity, pool: u64, total_stake: int) -> int {
    if vouch.backs(author) && total_stake > 0 {
        proportion(pool as int, vouch.stake_amount as int, total_stake)
    } else {
        0
    }
}

/// The vouches after a pool of `pool` was shared out for a sale by `author`:
/// each has its payout added to its earnings, and is otherwise as before.
pub open spec fn distributed(vouches: Seq<Vouch>, author: Identity, pool: u64) -> Seq<Vouch> {
    let total_stake = backing_stake(vouches, author);
    Seq::new(
        vouches.len(),
        |i: int| vouches[i].credited(payout(vouches[i], author, pool, total_stake)),
    )
}

/// Whether every vouch has room in its earnings for its payout.
pub open spec fn distribution_fits(vouches: Seq<Vouch>, author: Identity, pool: u64) -> bool {
    let total_stake = backing_stake(vouches, author);
    forall|i: int|
        0 <= i < vouches.len() ==> vouches[i].cumulative_revenue + #[trigger] payout(
            vouches[i],
            author,
            pool,
            total_stake,
        ) <= u64::MAX
}

/// The sum of the payouts to the first `count` vouches.
pub open spec fn paid_out(
    vouches: Seq<Vouch>,
    author: Identity,
    pool: u64,
    total_stake: int,
    count: nat,
) -> int
    decreases count,
{
    if count == 0 {
        0
    } else {
        paid_out(vouches, author, pool, total_stake, (count - 1) as nat) + payout(
            vouches[count - 1],
            author,
            pool,
            total_stake,
        )
    }
}

/// A payout is never negative and never more than the pool.
pub proof fn lemma_payout_bounds(vouches: Seq<Vouch>, author: Identity, pool: u64, index: int)
    requires
        0 <= index < vouches.len(),
    ensures
        0 <= payout(vouches[index], author, pool, backing_stake(vouches, author)) <= pool,
{
    let total_stake = backing_stake(vouches, author);
    if vouches[index].backs(author) && total_stake > 0 {
        lemma_backing_stake_covers(vouches, author, index);
        lemma_proportion_bounds(pool as int, vouches[index].stake_amount as int, total_stake);
    }
}

/// What the first `count` vouches are paid is covered by their part of the
/// pool: `total_stake` times the sum never exceeds `pool` times their stake.
proof fn lemma_paid_out_is_covered(
    vouches: Seq<Vouch>,
    author: Identity,
    pool: u64,
    total_stake: int,
    count: nat,
)
    requires
        count <= vouches.len(),
        total_stake > 0,
    ensures
        0 <= paid_out(vouches, author, pool, total_stake, count),
        paid_out(vouches, author, pool, total_stake, count) * total_stake <= pool * backing_stake(
            vouches.take(count as int),
            author,
        ),
    decreases count,
{
    if count > 0 {
        let before = (count - 1) as nat;
        lemma_paid_out_is_covered(vouches, author, pool, total_stake, before);
        assert(vouches.take(count as int).drop_last() =~= vouches.take(before as int));
        let vouch = vouches[count - 1];
        let share = payout(vouch, author, pool, total_stake);
        let stake = vouch.stake_behind(author);
        let earlier = paid_out(vouches, author, pool, total_stake, before);
        let earlier_stake = backing_stake(vouches.take(before as int), author);
        assert(0 <= share && share * total_stake <= pool * stake) by (nonlinear_arith)
            requires
                total_stake > 0,
                0 <= pool,
                0 <= stake,
                share == if vouch.backs(author) {
                    (pool * stake) / total_stake
                } else {
                    0
                },
                !vouch.backs(author) ==> stake == 0,
        ;
        assert((earlier + share) * total_stake == earlier * total_stake + share * total_stake)
            by (nonlinear_arith);
        assert(pool * (earlier_stake + stake) == pool * earlier_stake + pool * stake)
            by (nonlinear_arith);
    }
}

/// Sharing out a pool never pays more than the pool: rounding down can only
/// leave a remainder, which nobody receives.
pub proof fn lemma_distribution_never_overpays(vouches: Seq<Vouch>, author: Identity, pool: u64)
    ensures
        0 <= paid_out(vouches, author, pool, backing_stake(vouches, author), vouches.len()) <= pool,
{
    let total_stake = backing_stake(vouches, author);
    let paid = paid_out(vouches, author, pool, total_stake, vouches.len());
    if total_stake > 0 {
        lemma_paid_out_is_covered(vouches, author, pool, total_stake, vouches.len());
        assert(vouches.take(vouches.len() as int) =~= vouches);
        assert(paid <= pool) by (nonlinear_arith)
            requires
                paid * total_stake <= pool * total_stake,
                total_stake > 0,
        ;
    } else {
        lemma_nothing_paid_without_stake(vouches, author, pool, total_stake, vouches.len());
    }
}

/// With no stake behind the author nothing is paid.
proof fn lemma_nothing_paid_without_stake(
    vouches: Seq<Vouch>,
    author: Identity,
    pool: u64,
    total_stake: int,
    count: nat,
)
    requires
        total_stake <= 0,
    ensures
        paid_out(vouches, author, pool, total_stake, count) == 0,
    decreases count,
{
    if count > 0 {
        lemma_nothing_paid_without_stake(vouches, author, pool, total_stake, (count - 1) as nat);
    }
}

/// The earnings of all `vouches` together.
pub open spec fn accrued_revenue(vouches: Seq<Vouch>) -> int
    decreases vouches.len(),
{
    if vouches.len() == 0 {
        0
    } else {
        accrued_revenue(vouches.drop_last()) + vouches.last().cumulative_revenue
    }
}

/// Among the first `count` vouches, earnings grow by what those vouches are
/// paid.
proof fn lemma_earnings_grow_by_payouts(
    vouches: Seq<Vouch>,
    author: Identity,
    pool: u64,
    count: nat,
)
    requires
        distribution_fits(vouches, author, pool),
        count <= vouches.len(),
    ensures
        accrued_revenue(distributed(vouches, author, pool).take(count as int)) == accrued_revenue(
            vouches.take(count as int),
        ) + paid_out(vouches, author, pool, backing_stake(vouches, author), count),
    decreases count,
{
    if count > 0 {
        let before = (count - 1) as nat;
        let after = distributed(vouches, author, pool);
        lemma_earnings_grow_by_payouts(vouches, author, pool, before);
        lemma_payout_bounds(vouches, author, pool, before as int);
        assert(after.take(count as int).drop_last() =~= after.take(before as int));
        assert(vouches.take(count as int).drop_last() =~= vouches.take(before as int));
        assert(vouches[before as int].cumulative_revenue + payout(
            vouches[before as int],
            author,
            pool,
            backing_stake(vouches, author),
        ) <= u64::MAX);
    }
}

/// Sharing out a pool adds to the earnings of the vouches, all together,
/// exactly what is paid out: never less than nothing, never more than the
/// pool. No vouch earns less than it had, and a vouch that does not back the
/// author stays as it is.
pub proof fn lemma_distribution_accrues_what_is_paid(
    vouches: Seq<Vouch>,
    author: Identity,
    pool: u64,
)
    requires
        distribution_fits(vouches, author, pool),
    ensures
        accrued_revenue(distributed(vouches, author, pool)) == accrued_revenue(vouches) + paid_out(
            vouches,
            author,
            pool,
            backing_stake(vouches, author),
            vouches.len(),
        ),
        accrued_revenue(vouches) <= accrued_revenue(distributed(vouches, author, pool))
            <= accrued_revenue(vouches) + pool,
        forall|i: int|
            0 <= i < vouches.len() ==> (#[trigger] distributed(
                vouches,
                author,
                pool,
            )[i]).cumulative_revenue >= vouches[i].cumulative_revenue,
        forall|i: int|
            0 <= i < vouches.len() && !vouches[i].backs(author) ==> #[trigger] distributed(
                vouches,
                author,
                pool,
            )[i] == vouches[i],
{
    let after = distributed(vouches, author, pool);
    lemma_earnings_grow_by_payouts(vouches, author, pool, vouches.len());
    lemma_distribution_never_overpays(vouches, author, pool);
    assert(after.take(vouches.len() as int) =~= after);
    assert(vouches.take(vouches.len() as int) =~= vouches);
    assert forall|i: int| 0 <= i < vouches.len() implies (#[trigger] after[i]).cumulative_revenue
        >= vouches[i].cumulative_revenue by {
        lemma_payout_bounds(vouches, author, pool, i);
        assert(vouches[i].cumulative_revenue + payout(
            vouches[i],
            author,
            pool,
            backing_stake(vouches, author),
        ) <= u64::MAX);
    }
}

/// The vouches as they stand once `pool` was shared out among those that
/// back `author`, or `None` where the earnings of one of them would overflow.
pub fn shared_out(vouches: &Vec<Vouch>, author: &Identity, pool: u64) -> (updated: Option<
    Vec<Vouch>,
>)
    ensures
        distribution_fits(vouches@, *author, pool) ==> updated is Some && updated.unwrap()@
            == distributed(vouches@, *author, pool),
        !distribution_fits(vouches@, *author, pool) ==> updated is None,
{
    let total_stake = total_backing_stake(vouches, author);
    let mut updated: Vec<Vouch> = Vec::new();
    let mut i: usize = 0;
    while i < vouches.len()
        invariant
            i <= vouches.len(),
            total_stake == backing_stake(vouches@, *author),
            updated@ == distributed(vouches@, *author, pool).take(i as int),
            forall|j: int|
                0 <= j < i ==> vouches@[j].cumulative_revenue + #[trigger] payout(
                    vouches@[j],
                    *author,
                    pool,
                    total_stake as int,
                ) <= u64::MAX,
        decreases vouches.len() - i,
    {
        let vouch = vouches[i];
        proof {
            lemma_payout_bounds(vouches@, *author, pool, i as int);
        }
        let share: u64 = if total_stake > 0 && vouch.is_backing(author) {
            scaled(pool, vouch.stake_amount, total_stake)
        } else {
            0
        };
        match vouch.cumulative_revenue.checked_add(share) {
            Some(cumulative_revenue) => {
                updated.push(Vouch { cumulative_revenue, ..vouch });
            },
            None => {
                return None;
            },
        }
        i = i + 1;
    }
    Some(updated)
}

/// Shares `pool` out among the vouches that back `author`, each in proportion
/// to its stake, and adds each share to that vouch's earnings. Vouches that do
/// not back the author, because they name another agent or are not active,
/// earn nothing. All earnings are updated or, where one would overflow, none.
pub fn distribute(vouches: &mut Vec<Vouch>, author: &Identity, pool: u64) -> (result: Result<
    (),
    ErrorCode,
>)
    ensures
        distribution_fits(old(vouches)@, *author, pool) ==> result is Ok && final(vouches)@
            == distributed(old(vouches)@, *author, pool),
        !distribution_fits(old(vouches)@, *author, pool) ==> result == Err::<(), ErrorCode>(
            ErrorCode::ArithmeticOverflow,
        ) && *final(vouches) == *old(vouches),
{
    match shared_out(vouches, author, pool) {
        Some(updated) => {
            *vouches = updated;
            Ok(())
        },
        None => Err(ErrorCode::ArithmeticOverflow),
    }
}

/// What a purchase reads and writes.
#[derive(Clone, Debug, PartialEq, Eq)]
pub struct PurchaseSkill {
    /// The listing that is bought.
    pub skill_listing: SkillListing,
    /// The key under which the listing is kept.
    pub skill_listing_key: Identity,
    /// Where the receipt goes.
    pub purchase: Option<Purchase>,
    /// The wallet that receives the author's share.
    pub author: Wallet,
    /// The wallet that pays.
    pub buyer: Wallet,
}

/// What a purchase reads and writes where the backers are paid at once.
#[derive(Clone, Debug, PartialEq, Eq)]
pub struct PurchaseSkillWithDistribution {
    /// The listing that is bought.
    pub skill_listing: SkillListing,
    /// The key under which the listing is kept.
    pub skill_listing_key: Identity,
    /// Where the receipt goes.
    pub purchase: Option<Purchase>,
    /// The wallet that receives the author's share.
    pub author: Wallet,
    /// The wallet that pays.
    pub buyer: Wallet,
    /// The vouches handed in with the purchase. Those that back the author
    /// share the pool.
    pub vouches: Vec<Vouch>,
}

/// Why a sale of `listing`, paid by `buyer` to `author`, is refused before
/// anything is shared out, if it is: the listing is on sale, the payee is its
/// author, it has a price, and the buyer can pay the author's share.
pub open spec fn sale_refusal(listing: SkillListing, author: Wallet, buyer: Wallet) -> Option<
    ErrorCode,
> {
    if listing.status != SkillStatus::Active {
        Some(ErrorCode::SkillNotActive)
    } else if author.owner != listing.author {
        Some(ErrorCode::InvalidAuthor)
    } else if listing.price_lamports == 0 {
        Some(ErrorCode::PriceMustBePositive)
    } else if payment(buyer, author, author_share(listing.price_lamports) as u64) is None {
        Some(ErrorCode::InsufficientFunds)
    } else {
        None
    }
}

/// The receipt of a sale of the listing under `listing_key` to `buyer`.
pub open spec fn receipt(listing: SkillListing, listing_key: Identity, buyer: Wallet, now: i64)
    -> Purchase {
    Purchase {
        buyer: buyer.owner,
        skill_listing: listing_key,
        purchased_at: now,
        price_paid: listing.price_lamports,
    }
}

impl PurchaseSkill {
    /// Why the purchase is refused, if it is.
    pub open spec fn refusal(self) -> Option<ErrorCode> {
        match sale_refusal(self.skill_listing, self.author, self.buyer) {
            Some(error) => Some(error),
            None => if !self.skill_listing.has_room_for_sale(self.skill_listing.price_lamports) {
                Some(ErrorCode::ArithmeticOverflow)
            } else {
                None
            },
        }
    }

    /// Everything as it stands once the purchase was made at time `now`: the
    /// author paid, the sale counted, the receipt written.
    pub open spec fn applied(self, now: i64) -> PurchaseSkill {
        let price = self.skill_listing.price_lamports;
        let paid = payment(self.buyer, self.author, author_share(price) as u64).unwrap();
        PurchaseSkill {
            skill_listing: self.skill_listing.with_sale(price),
            skill_listing_key: self.skill_listing_key,
            purchase: Some(receipt(self.skill_listing, self.skill_listing_key, self.buyer, now)),
            author: paid.1,
            buyer: paid.0,
        }
    }
}

impl PurchaseSkillWithDistribution {
    /// Why the purchase is refused, if it is.
    pub open spec fn refusal(self) -> Option<ErrorCode> {
        let price = self.skill_listing.price_lamports;
        match sale_refusal(self.skill_listing, self.author, self.buyer) {
            Some(error) => Some(error),
            None => if !distribution_fits(
                self.vouches@,
                self.skill_listing.author,
                voucher_pool(price) as u64,
            ) || !self.skill_listing.has_room_for_sale(price) {
                Some(ErrorCode::ArithmeticOverflow)
            } else {
                None
            },
        }
    }

    /// The vouches once the pool of this sale was shared out.
    pub open spec fn vouches_after(self) -> Seq<Vouch> {
        distributed(
            self.vouches@,
            self.skill_listing.author,
            voucher_pool(self.skill_listing.price_lamports) as u64,
        )
    }

    /// The listing, the receipt and the two wallets as they stand once the
    /// purchase was made at time `now`.
    pub open spec fn sale_applied(self, now: i64) -> PurchaseSkill {
        PurchaseSkill {
            skill_listing: self.skill_listing,
            skill_listing_key: self.skill_listing_key,
            purchase: self.purchase,
            author: self.author,
            buyer: self.buyer,
        }.applied(now)
    }

    /// Whether `after` is everything as it stands once the purchase was made
    /// at time `now`: the author paid, the pool shared out among the vouches,
    /// the sale counted, the receipt written.
    pub open spec fn is_applied(self, after: PurchaseSkillWithDistribution, now: i64) -> bool {
        &&& after.vouches@ == self.vouches_after()
        &&& after.skill_listing == self.sale_applied(now).skill_listing
        &&& after.skill_listing_key == self.skill_listing_key
        &&& after.purchase == self.sale_applied(now).purchase
        &&& after.author == self.sale_applied(now).author
        &&& after.buyer == self.sale_applied(now).buyer
    }
}

/// Checks a sale and pays the author: the two wallets after the payment, buyer
/// first, or why the sale is refused.
fn settle_with_author(listing: &SkillListing, author: &Wallet, buyer: &Wallet) -> (result: Result<
    (Wallet, Wallet),
    ErrorCode,
>)
    ensures
        match sale_refusal(*listing, *author, *buyer) {
            Some(error) => result == Err::<(Wallet, Wallet), ErrorCode>(error),
            None => result == Ok::<(Wallet, Wallet), ErrorCode>(
                payment(*buyer, *author, author_share(listing.price_lamports) as u64).unwrap(),
            ),
        },
{
    if listing.status != SkillStatus::Active {
        return Err(ErrorCode::SkillNotActive);
    }
    if author.owner != listing.author {
        return Err(ErrorCode::InvalidAuthor);
    }
    if listing.price_lamports == 0 {
        return Err(ErrorCode::PriceMustBePositive);
    }
    let (author_part, _) = split_price(listing.price_lamports);
    match pay(buyer, author, author_part) {
        Some(paid) => Ok(paid),
        None => Err(ErrorCode::InsufficientFunds),
    }
}

/// The counters of `listing` after one more sale at its price, or `None`
/// where one of them would overflow.
fn counted_sale(listing: &SkillListing) -> (counters: Option<(u64, u64)>)
    ensures
        listing.has_room_for_sale(listing.price_lamports) ==> counters == Some(
            (
                (listing.total_downloads + 1) as u64,
                (listing.total_revenue + listing.price_lamports) as u64,
            ),
        ),
        !listing.has_room_for_sale(listing.price_lamports) ==> counters is None,
{
    let total_downloads = match listing.total_downloads.checked_add(1) {
        Some(total_downloads) => total_downloads,
        None => { return None; },
    };
    match listing.total_revenue.checked_add(listing.price_lamports) {
        Some(total_revenue) => Some((total_downloads, total_revenue)),
        None => None,
    }
}

impl PurchaseSkill {
    /// Decides whether the purchase is refused, and why.
    pub fn check(&self) -> (refusal: Option<ErrorCode>)
        ensures
            refusal == self.refusal(),
    {
        match settle_with_author(&self.skill_listing, &self.author, &self.buyer) {
            Err(error) => Some(error),
            Ok(_) => if counted_sale(&self.skill_listing).is_none() {
                Some(ErrorCode::ArithmeticOverflow)
            } else {
                None
            },
        }
    }
}

impl PurchaseSkillWithDistribution {
    /// Decides whether the purchase is refused, and why.
    pub fn check(&self) -> (refusal: Option<ErrorCode>)
        ensures
            refusal == self.refusal(),
    {
        match settle_with_author(&self.skill_listing, &self.author, &self.buyer) {
            Err(error) => Some(error),
            Ok(_) => {
                let (_, pool) = split_price(self.skill_listing.price_lamports);
                if shared_out(&self.vouches, &self.skill_listing.author, pool).is_none()
                    || counted_sale(&self.skill_listing).is_none() {
                    Some(ErrorCode::ArithmeticOverflow)
                } else {
                    None
                }
            },
        }
    }
}

/// Buys the skill: pays the author sixty hundredths of the price, counts the
/// sale on the listing and writes the receipt. The backers' pool is not
/// shared out. Or refuses and changes nothing.
pub fn handler(ctx: &mut PurchaseSkill, now: i64) -> (result: Result<(), ErrorCode>)
    ensures
        match old(ctx).refusal() {
            Some(error) => result == Err::<(), ErrorCode>(error) && *final(ctx) == *old(ctx),
            None => result is Ok && *final(ctx) == old(ctx).applied(now),
        },
{
    let (buyer, author) = match settle_with_author(&ctx.skill_listing, &ctx.author, &ctx.buyer) {
        Ok(paid) => paid,
        Err(error) => { return Err(error); },
    };
    let (total_downloads, total_revenue) = match counted_sale(&ctx.skill_listing) {
        Some(counters) => counters,
        None => { return Err(ErrorCode::ArithmeticOverflow); },
    };
    ctx.purchase = Some(
        Purchase {
            buyer: ctx.buyer.owner,
            skill_listing: ctx.skill_listing_key,
            purchased_at: now,
            price_paid: ctx.skill_listing.price_lamports,
        },
    );
    ctx.buyer = buyer;
    ctx.author = author;
    ctx.skill_listing.total_downloads = total_downloads;
    ctx.skill_listing.total_revenue = total_revenue;
    Ok(())
}

/// Buys the skill and pays the author's backers at once: pays the author
/// sixty hundredths of the price, shares forty hundredths among the vouches
/// that back the author in proportion to their stakes, counts the sale on the
/// listing and writes the receipt. Or refuses and changes nothing.
pub fn handler_with_distribution(ctx: &mut PurchaseSkillWithDistribution, now: i64) -> (result:
    Result<(), ErrorCode>)
    ensures
        match old(ctx).refusal() {
            Some(error) => result == Err::<(), ErrorCode>(error) && *final(ctx) == *old(ctx),
            None => result is Ok && old(ctx).is_applied(*final(ctx), now),
        },
{
    let (buyer, author) = match settle_with_author(&ctx.skill_listing, &ctx.author, &ctx.buyer) {
        Ok(paid) => paid,
        Err(error) => { return Err(error); },
    };
    let (total_downloads, total_revenue) = match counted_sale(&ctx.skill_listing) {
        Some(counters) => counters,
        None => { return Err(ErrorCode::ArithmeticOverflow); },
    };
    let (_, pool) = split_price(ctx.skill_listing.price_lamports);
    let author_key = ctx.skill_listing.author;
    match distribute(&mut ctx.vouches, &author_key, pool) {
        Ok(()) => {},
        Err(error) => { return Err(error); },
    }
    ctx.purchase = Some(
        Purchase {
            buyer: ctx.buyer.owner,
            skill_listing: ctx.skill_listing_key,
            purchased_at: now,
            price_paid: ctx.skill_listing.price_lamports,
        },
    );
    ctx.buyer = buyer;
    ctx.author = author;
    ctx.skill_listing.total_downloads = total_downloads;
    ctx.skill_listing.total_revenue = total_revenue;
    Ok(())
}

} // verus!
