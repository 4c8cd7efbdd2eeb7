use wordle_session::coin;
use wordle_session::curve::{CoinTransfer, Configurator, CurveError, CurveEvent, InitConfig};
use wordle_session::Principal;

fn p(n: u64) -> Principal {
    Principal::from_u64(n)
}

fn config(virtual_sui_amt: u128) -> InitConfig {
    InitConfig {
        virtual_sui_amt,
        target_supply_threshold: 10,
        migration_fee: 0,
        listing_fee: 5,
        swap_fee_ratio: 0,
        total_supply_limit: 1_000_000,
        admin: p(1),
        fund_manager: p(2),
    }
}

fn list(c: &mut Configurator, symbol: &str, value: u128) -> Result<CoinTransfer, CurveError> {
    c.listing(
        p(7),
        value,
        symbol.to_string(),
        p(50),
        "tw".to_string(),
        "tg".to_string(),
        "web".to_string(),
        99,
    )
}

#[test]
fn listing_moves_the_supply_to_the_fund_manager() {
    let mut c = Configurator::new(config(100));
    let transfer = list(&mut c, "POP", 5).unwrap();
    assert_eq!(
        transfer,
        CoinTransfer {
            coin_address: p(50),
            action: coin::FTAction::Transfer { from: p(7), to: p(2), amount: 1_000_000 },
        }
    );
    assert_eq!(list(&mut c, "POP", 5), Err(CurveError::CoinExists));
    assert!(list(&mut c, "OTHER", 6).is_ok());
}

#[test]
fn listing_below_fee_is_refused() {
    let mut c = Configurator::new(config(100));
    assert_eq!(list(&mut c, "POP", 4), Err(CurveError::ListingFeeTooLow));
    // nothing was listed
    assert_eq!(c.buy(p(8), 10, "POP".to_string(), p(50), 0), Err(CurveError::UnknownSymbol));
}

#[test]
fn buying_from_a_fresh_listing_closes_the_curve() {
    let mut c = Configurator::new(config(100));
    list(&mut c, "POP", 5).unwrap();
    // a fresh listing holds no tokens on the curve, so it sells none
    assert_eq!(c.buy(p(8), 10, "POP".to_string(), p(50), 1), Err(CurveError::OutputBelowMinimum));
    let purchase = c.buy(p(8), 10, "POP".to_string(), p(50), 0).unwrap();
    assert_eq!(
        purchase.transfer,
        CoinTransfer { coin_address: p(50), action: coin::FTAction::Transfer { from: p(2), to: p(8), amount: 0 } }
    );
    assert_eq!(
        purchase.migration,
        Some(CurveEvent::MigrationPendingEvent { symbol: "POP".to_string(), sui_reserve_val: 10, token_reserve_val: 0 })
    );
    assert_eq!(
        purchase.swap,
        CurveEvent::SwapEvent {
            is_buy: true,
            input_amount: 10,
            output_amount: 0,
            native_reserve_val: 10,
            token_reserve_val: 0,
            sender: p(8),
        }
    );
    assert_eq!(c.buy(p(8), 10, "POP".to_string(), p(50), 0), Err(CurveError::CurveInactive));
}

#[test]
fn unpriceable_purchase_is_refused() {
    let mut c = Configurator::new(config(0));
    list(&mut c, "POP", 5).unwrap();
    assert_eq!(c.buy(p(8), 0, "POP".to_string(), p(50), 0), Err(CurveError::ArithmeticError));
    let mut c = Configurator::new(config(1));
    list(&mut c, "POP", 5).unwrap();
    assert_eq!(c.buy(p(8), u128::MAX, "POP".to_string(), p(50), 0), Err(CurveError::ArithmeticError));
    // a refused purchase leaves the curve trading
    assert!(c.buy(p(8), 3, "POP".to_string(), p(50), 0).is_ok());
}
