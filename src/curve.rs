use vstd::prelude::*;

use crate::coin;
use crate::ids::Principal;
use crate::maps::{coin_entries, CoinMap};

verus! {

/// The listing of one coin on the bonding curve, with its reserves.
pub struct BondingCurve {
    pub token_balance: u128,
    pub is_active: bool,
    pub creator: Principal,
    pub twitter: String,
    pub telegram: String,
    pub website: String,
    pub migration_target: u128,
    pub coin_amount: u128,
    pub native_amount: u128,
}

/// The tokens that `input` native coins buy from reserves of `coin` tokens and
/// `native` native coins (the virtual amount included), rounded down.
pub open spec fn token_output(input: int, coin: int, native: int) -> int {
    (input * coin) / (native + input)
}

impl BondingCurve {
    /// The native reserve with the virtual amount added.
    pub fn get_virtual_base_coin(&self, virtual_sui_amt: u128) -> (r: u128)
        requires
            self.native_amount + virtual_sui_amt <= u128::MAX,
        ensures
            r == self.native_amount + virtual_sui_amt,
    {
        self.native_amount + virtual_sui_amt
    }

    /// The tokens bought by `input_amount` native coins, priced against the
    /// coin reserve and the virtual native reserve.
    pub fn get_token_output_amount(&self, input_amount: u128, virtual_sui_amt: u128) -> (r: u128)
        requires
            self.native_amount + virtual_sui_amt + input_amount <= u128::MAX,
            self.native_amount + virtual_sui_amt + input_amount > 0,
            input_amount * self.coin_amount <= u128::MAX,
        ensures
            r == token_output(
                input_amount as int,
                self.coin_amount as int,
                self.native_amount + virtual_sui_amt,
            ),
            r <= self.coin_amount,
    {
        let coin_amount = self.coin_amount;
        let native_coin_amount = self.get_virtual_base_coin(virtual_sui_amt);
        let numerator = input_amount * coin_amount;
        let denominator = native_coin_amount + input_amount;
        proof {
            let n = native_coin_amount as int;
            let i = input_amount as int;
            let c = coin_amount as int;
            assert(i * c <= (n + i) * c) by (nonlinear_arith)
                requires
                    n >= 0,
                    i >= 0,
                    c >= 0,
            ;
            assert((i * c) / (n + i) <= c) by (nonlinear_arith)
                requires
                    n + i > 0,
                    i * c <= (n + i) * c,
                    i * c >= 0,
            ;
        }
        numerator / denominator
    }

    /// The coin and native reserves.
    pub fn get_reserves(&self) -> (r: (u128, u128))
        ensures
            r == (self.coin_amount, self.native_amount),
    {
        (self.coin_amount, self.native_amount)
    }
}

/// Parameters of the curve program, fixed at initialisation.
#[derive(Clone, Copy, Debug, PartialEq, Eq, Structural)]
pub struct InitConfig {
    pub virtual_sui_amt: u128,
    pub target_supply_threshold: u64,
    pub migration_fee: u64,
    pub listing_fee: u128,
    pub swap_fee_ratio: u64,
    pub total_supply_limit: u128,
    pub admin: Principal,
    pub fund_manager: Principal,
}

/// A request to the curve program.
#[derive(Clone, Debug, PartialEq, Eq)]
pub enum FTAction {
    Listing {
        symbol: String,
        coin_address: Principal,
        twitter: String,
        telegram: String,
        website: String,
        migrate_price: u128,
    },
    Buy { symbol: String, coin_address: Principal, expect_token_output_amount: u128 },
}

/// An event reported by the curve program.
#[derive(Clone, Debug, PartialEq, Eq)]
pub enum CurveEvent {
    SwapEvent {
        is_buy: bool,
        input_amount: u128,
        output_amount: u128,
        native_reserve_val: u128,
        token_reserve_val: u128,
        sender: Principal,
    },
    MigrationPendingEvent { symbol: String, sui_reserve_val: u128, token_reserve_val: u128 },
}

/// Why the curve program refuses a request.
#[derive(Clone, Copy, Debug, PartialEq, Eq, Structural)]
pub enum CurveError {
    /// A coin is already listed under the symbol.
    CoinExists,
    /// The value sent with a listing is below the listing fee.
    ListingFeeTooLow,
    /// No coin is listed under the symbol.
    UnknownSymbol,
    /// The coin's curve no longer trades.
    CurveInactive,
    /// The price cannot be computed in 128 bits, or has a zero denominator.
    ArithmeticError,
    /// The purchase would yield fewer tokens than the buyer asked for.
    OutputBelowMinimum,
}

/// A request to send to a token program.
#[derive(Clone, Copy, Debug, PartialEq, Eq, Structural)]
pub struct CoinTransfer {
    pub coin_address: Principal,
    pub action: coin::FTAction,
}

/// What a purchase hands back: the tokens to transfer to the buyer, the
/// migration notice if the curve has just closed, and the swap report.
#[derive(Clone, Debug, PartialEq, Eq)]
pub struct Purchase {
    pub transfer: CoinTransfer,
    pub migration: Option<CurveEvent>,
    pub swap: CurveEvent,
}

/// The curve program: its fees and limits, and the coin listed under each symbol.
pub struct Configurator {
    virtual_sui_amt: u128,
    target_supply_threshold: u128,
    migration_fee: u128,
    listing_fee: u128,
    swap_fee_ratio: u128,
    total_supply_limit: u128,
    pub admin: Principal,
    pub fund_manager: Principal,
    pop_coin: CoinMap,
}

/// Whether a purchase of `input` native coins can be priced on `c`.
pub open spec fn priceable(c: BondingCurve, input: u128, virtual_amt: u128) -> bool {
    &&& c.native_amount + virtual_amt + input <= u128::MAX
    &&& c.native_amount + virtual_amt + input > 0
    &&& input * c.coin_amount <= u128::MAX
}

impl Configurator {
    /// The coin listed under each symbol.
    pub closed spec fn listings(&self) -> Map<Seq<char>, BondingCurve> {
        coin_entries(self.pop_coin)
    }

    pub closed spec fn virtual_amount(&self) -> u128 {
        self.virtual_sui_amt
    }

    pub closed spec fn threshold(&self) -> u128 {
        self.target_supply_threshold
    }

    pub closed spec fn fee(&self) -> u128 {
        self.listing_fee
    }

    pub closed spec fn supply_limit(&self) -> u128 {
        self.total_supply_limit
    }

    pub closed spec fn admin_id(&self) -> Principal {
        self.admin
    }

    pub closed spec fn manager_id(&self) -> Principal {
        self.fund_manager
    }

    /// A curve program with nothing listed. The fund manager is the one that
    /// `init` names as such, deliberately distinct from the admin: purchases
    /// draw their tokens from it.
    pub fn new(init: InitConfig) -> (r: Configurator)
        ensures
            r.listings() == Map::<Seq<char>, BondingCurve>::empty(),
            r.virtual_amount() == init.virtual_sui_amt,
            r.threshold() == init.target_supply_threshold,
            r.fee() == init.listing_fee,
            r.supply_limit() == init.total_supply_limit,
            r.admin_id() == init.admin,
            r.manager_id() == init.fund_manager,
    {
        Configurator {
            virtual_sui_amt: init.virtual_sui_amt,
            target_supply_threshold: init.target_supply_threshold as u128,
            migration_fee: init.migration_fee as u128,
            listing_fee: init.listing_fee,
            swap_fee_ratio: init.swap_fee_ratio as u128,
            total_supply_limit: init.total_supply_limit,
            admin: init.admin,
            fund_manager: init.fund_manager,
            pop_coin: CoinMap::new(),
        }
    }

    /// Lists a coin of `sender` under `symbol`, for a payment of `value`. The
    /// whole supply limit is to move from the sender to the fund manager.
    /// The listing is keyed by `symbol` on purpose, and by nothing else (not
    /// its twitter handle), since the duplicate check and purchases look it up
    /// by symbol.
    pub fn listing(
        &mut self,
        sender: Principal,
        value: u128,
        symbol: String,
        coin_address: Principal,
        twitter: String,
        telegram: String,
        website: String,
        migrate_price: u128,
    ) -> (r: Result<CoinTransfer, CurveError>)
        ensures
            final(self).virtual_amount() == old(self).virtual_amount(),
            final(self).threshold() == old(self).threshold(),
            final(self).fee() == old(self).fee(),
            final(self).supply_limit() == old(self).supply_limit(),
            final(self).manager_id() == old(self).manager_id(),
            final(self).admin_id() == old(self).admin_id(),
            old(self).listings().contains_key(symbol@) ==> r == Err::<CoinTransfer, CurveError>(
                CurveError::CoinExists,
            ) && final(self).listings() == old(self).listings(),
            !old(self).listings().contains_key(symbol@) && value < old(self).fee() ==> r == Err::<
                CoinTransfer,
                CurveError,
            >(CurveError::ListingFeeTooLow) && final(self).listings() == old(self).listings(),
            !old(self).listings().contains_key(symbol@) && value >= old(self).fee() ==> {
                &&& r == Ok::<CoinTransfer, CurveError>(
                    CoinTransfer {
                        coin_address,
                        action: coin::FTAction::Transfer {
                            from: sender,
                            to: old(self).manager_id(),
                            amount: old(self).supply_limit(),
                        },
                    },
                )
                &&& final(self).listings() == old(self).listings().insert(
                    symbol@,
                    BondingCurve {
                        token_balance: old(self).supply_limit(),
                        is_active: true,
                        creator: sender,
                        twitter,
                        telegram,
                        website,
                        migration_target: migrate_price,
                        coin_amount: 0,
                        native_amount: 0,
                    },
                )
            },
    {
        if self.pop_coin.contains(&symbol) {
            return Err(CurveError::CoinExists);
        }
        if value < self.listing_fee {
            return Err(CurveError::ListingFeeTooLow);
        }
        let curve = BondingCurve {
            token_balance: self.total_supply_limit,
            is_active: true,
            creator: sender,
            twitter,
            telegram,
            website,
            migration_target: migrate_price,
            coin_amount: 0,
            native_amount: 0,
        };
        self.pop_coin.insert(symbol, curve);
        Ok(
            CoinTransfer {
                coin_address,
                action: coin::FTAction::Transfer {
                    from: sender,
                    to: self.fund_manager,
                    amount: self.total_supply_limit,
                },
            },
        )
    }

    /// Buys with `input_amount` native coins, from `sender`, the coin listed
    /// under `symbol`, for at least `expect_token_output_amount` tokens. The
    /// curve takes the coins in and gives the tokens out; once its token
    /// reserve is down to the threshold it stops trading and reports that it
    /// is ready to migrate.
    pub fn buy(
        &mut self,
        sender: Principal,
        input_amount: u128,
        symbol: String,
        coin_address: Principal,
        expect_token_output_amount: u128,
    ) -> (r: Result<Purchase, CurveError>)
        ensures
            final(self).virtual_amount() == old(self).virtual_amount(),
            final(self).threshold() == old(self).threshold(),
            final(self).fee() == old(self).fee(),
            final(self).supply_limit() == old(self).supply_limit(),
            final(self).manager_id() == old(self).manager_id(),
            final(self).admin_id() == old(self).admin_id(),
            r is Err ==> final(self).listings() == old(self).listings(),
            !old(self).listings().contains_key(symbol@) ==> r == Err::<Purchase, CurveError>(
                CurveError::UnknownSymbol,
            ),
            old(self).listings().contains_key(symbol@) ==> {
                let c = old(self).listings()[symbol@];
                let virt = old(self).virtual_amount();
                let out = token_output(
                    input_amount as int,
                    c.coin_amount as int,
                    c.native_amount + virt,
                );
                let native = c.native_amount + input_amount;
                let coin = c.coin_amount - out;
                &&& !c.is_active ==> r == Err::<Purchase, CurveError>(CurveError::CurveInactive)
                &&& c.is_active && !priceable(c, input_amount, virt) ==> r == Err::<
                    Purchase,
                    CurveError,
                >(CurveError::ArithmeticError)
                &&& c.is_active && priceable(c, input_amount, virt) && out
                    < expect_token_output_amount ==> r == Err::<Purchase, CurveError>(
                    CurveError::OutputBelowMinimum,
                )
                &&& c.is_active && priceable(c, input_amount, virt) && out
                    >= expect_token_output_amount ==> {
                    &&& r is Ok
                    &&& r->Ok_0.transfer == CoinTransfer {
                        coin_address,
                        action: coin::FTAction::Transfer {
                            from: old(self).manager_id(),
                            to: sender,
                            amount: out as u128,
                        },
                    }
                    &&& r->Ok_0.swap == CurveEvent::SwapEvent {
                        is_buy: true,
                        input_amount,
                        output_amount: out as u128,
                        native_reserve_val: native as u128,
                        token_reserve_val: coin as u128,
                        sender,
                    }
                    &&& r->Ok_0.migration == if coin <= old(self).threshold() {
                        Some(
                            CurveEvent::MigrationPendingEvent {
                                symbol,
                                sui_reserve_val: native as u128,
                                token_reserve_val: coin as u128,
                            },
                        )
                    } else {
                        None
                    }
                    &&& final(self).listings() == old(self).listings().insert(
                        symbol@,
                        BondingCurve {
                            native_amount: native as u128,
                            coin_amount: coin as u128,
                            is_active: coin > old(self).threshold(),
                            ..c
                        },
                    )
                }
            },
    {
        let c = match self.pop_coin.get(&symbol) {
            None => return Err(CurveError::UnknownSymbol),
            Some(c) => c,
        };
        if !c.is_active {
            return Err(CurveError::CurveInactive);
        }
        let virt = self.virtual_sui_amt;
        let priced = match c.native_amount.checked_add(virt) {
            None => None,
            Some(base) => match base.checked_add(input_amount) {
                None => None,
                Some(total) => match input_amount.checked_mul(c.coin_amount) {
                    None => None,
                    Some(_) => if total == 0 {
                        None
                    } else {
                        Some(c.get_token_output_amount(input_amount, virt))
                    },
                },
            },
        };
        let out = match priced {
            None => return Err(CurveError::ArithmeticError),
            Some(out) => out,
        };
        if out < expect_token_output_amount {
            return Err(CurveError::OutputBelowMinimum);
        }
        let native = c.native_amount + input_amount;
        let coin = c.coin_amount - out;
        let mut curve = match self.pop_coin.remove(&symbol) {
            Some(curve) => curve,
            None => {
                proof {
                    assert(false);
                }
                return Err(CurveError::UnknownSymbol);
            },
        };
        curve.native_amount = native;
        curve.coin_amount = coin;
        if coin <= self.target_supply_threshold {
            curve.is_active = false;
        }
        self.pop_coin.insert(symbol.clone(), curve);
        let migration = if coin <= self.target_supply_threshold {
            Some(
                CurveEvent::MigrationPendingEvent {
                    symbol,
                    sui_reserve_val: native,
                    token_reserve_val: coin,
                },
            )
        } else {
            None
        };
        Ok(
            Purchase {
                transfer: CoinTransfer {
                    coin_address,
                    action: coin::FTAction::Transfer {
                        from: self.fund_manager,
                        to: sender,
                        amount: out,
                    },
                },
                migration,
                swap: CurveEvent::SwapEvent {
                    is_buy: true,
                    input_amount,
                    output_amount: out,
                    native_reserve_val: native,
                    token_reserve_val: coin,
                    sender,
                },
            },
        )
    }
}

} // verus!
