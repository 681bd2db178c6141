//! The request dispatcher's routing table: every unary method of the
//! remote service maps statically to one logical service group, and the
//! sandbox variant redirects the account, order, operations and portfolio
//! methods to its own service while sharing the read-only reference-data
//! methods with production.
use vstd::prelude::*;

verus! {

/// The logical service groups of the remote API.
#[derive(Clone, Copy, Debug, PartialEq, Eq, Structural)]
pub enum ServiceGroup {
    Instruments,
    MarketData,
    Operations,
    Orders,
    Sandbox,
    Signals,
    StopOrders,
    Users,
}

/// Every unary method of the remote service.
#[derive(Clone, Copy, Debug, PartialEq, Eq, Structural)]
pub enum UnaryMethod {
    BondBy,
    Bonds,
    CreateFavoriteGroup,
    DeleteFavoriteGroup,
    Currencies,
    CurrencyBy,
    EditFavorites,
    EtfBy,
    Etfs,
    FindInstrument,
    FutureBy,
    Futures,
    GetAccruedInterests,
    GetAssetBy,
    GetAssetFundamentals,
    GetAssetReports,
    GetAssets,
    GetBondCoupons,
    GetBondEvents,
    GetBrandBy,
    GetBrands,
    GetConsensusForecasts,
    GetCountries,
    GetDividends,
    GetFavoriteGroups,
    GetFavorites,
    GetForecastBy,
    GetFuturesMargin,
    GetInstrumentBy,
    GetRiskRates,
    Indicatives,
    OptionBy,
    OptionsBy,
    ShareBy,
    Shares,
    TradingSchedules,
    GetCandles,
    GetClosePrices,
    GetLastPrices,
    GetLastTrades,
    GetOrderBook,
    GetTechAnalysis,
    GetTradingStatus,
    GetTradingStatuses,
    GetDividendsForeignIssuer,
    GetOperations,
    GetOperationsByCursor,
    GetPortfolio,
    GetPositions,
    GetWithdrawLimits,
    CancelOrder,
    GetMaxLots,
    GetOrderPrice,
    GetOrderState,
    GetOrders,
    PostOrder,
    PostOrderAsync,
    ReplaceOrder,
    GetSignals,
    GetStrategies,
    CancelStopOrder,
    GetStopOrders,
    PostStopOrder,
    GetAccounts,
    GetInfo,
    GetMarginAttributes,
    GetUserTariff,
    OpenSandboxAccount,
    CloseSandboxAccount,
    SandboxPayIn,
}

/// The service group each method belongs to against the production
/// endpoint. The account-manipulation methods that exist only on the
/// sandbox belong to its group everywhere.
pub open spec fn spec_service_of(m: UnaryMethod) -> ServiceGroup {
    match m {
        UnaryMethod::BondBy => ServiceGroup::Instruments,
        UnaryMethod::Bonds => ServiceGroup::Instruments,
        UnaryMethod::CreateFavoriteGroup => ServiceGroup::Instruments,
        UnaryMethod::DeleteFavoriteGroup => ServiceGroup::Instruments,
        UnaryMethod::Currencies => ServiceGroup::Instruments,
        UnaryMethod::CurrencyBy => ServiceGroup::Instruments,
        UnaryMethod::EditFavorites => ServiceGroup::Instruments,
        UnaryMethod::EtfBy => ServiceGroup::Instruments,
        UnaryMethod::Etfs => ServiceGroup::Instruments,
        UnaryMethod::FindInstrument => ServiceGroup::Instruments,
        UnaryMethod::FutureBy => ServiceGroup::Instruments,
        UnaryMethod::Futures => ServiceGroup::Instruments,
        UnaryMethod::GetAccruedInterests => ServiceGroup::Instruments,
        UnaryMethod::GetAssetBy => ServiceGroup::Instruments,
        UnaryMethod::GetAssetFundamentals => ServiceGroup::Instruments,
        UnaryMethod::GetAssetReports => ServiceGroup::Instruments,
        UnaryMethod::GetAssets => ServiceGroup::Instruments,
        UnaryMethod::GetBondCoupons => ServiceGroup::Instruments,
        UnaryMethod::GetBondEvents => ServiceGroup::Instruments,
        UnaryMethod::GetBrandBy => ServiceGroup::Instruments,
        UnaryMethod::GetBrands => ServiceGroup::Instruments,
        UnaryMethod::GetConsensusForecasts => ServiceGroup::Instruments,
        UnaryMethod::GetCountries => ServiceGroup::Instruments,
        UnaryMethod::GetDividends => ServiceGroup::Instruments,
        UnaryMethod::GetFavoriteGroups => ServiceGroup::Instruments,
        UnaryMethod::GetFavorites => ServiceGroup::Instruments,
        UnaryMethod::GetForecastBy => ServiceGroup::Instruments,
        UnaryMethod::GetFuturesMargin => ServiceGroup::Instruments,
        UnaryMethod::GetInstrumentBy => ServiceGroup::Instruments,
        UnaryMethod::GetRiskRates => ServiceGroup::Instruments,
        UnaryMethod::Indicatives => ServiceGroup::Instruments,
        UnaryMethod::OptionBy => ServiceGroup::Instruments,
        UnaryMethod::OptionsBy => ServiceGroup::Instruments,
        UnaryMethod::ShareBy => ServiceGroup::Instruments,
        UnaryMethod::Shares => ServiceGroup::Instruments,
        UnaryMethod::TradingSchedules => ServiceGroup::Instruments,
        UnaryMethod::GetCandles => ServiceGroup::MarketData,
        UnaryMethod::GetClosePrices => ServiceGroup::MarketData,
        UnaryMethod::GetLastPrices => ServiceGroup::MarketData,
        UnaryMethod::GetLastTrades => ServiceGroup::MarketData,
        UnaryMethod::GetOrderBook => ServiceGroup::MarketData,
        UnaryMethod::GetTechAnalysis => ServiceGroup::MarketData,
        UnaryMethod::GetTradingStatus => ServiceGroup::MarketData,
        UnaryMethod::GetTradingStatuses => ServiceGroup::MarketData,
        UnaryMethod::GetDividendsForeignIssuer => ServiceGroup::Operations,
        UnaryMethod::GetOperations => ServiceGroup::Operations,
        UnaryMethod::GetOperationsByCursor => ServiceGroup::Operations,
        UnaryMethod::GetPortfolio => ServiceGroup::Operations,
        UnaryMethod::GetPositions => ServiceGroup::Operations,
        UnaryMethod::GetWithdrawLimits => ServiceGroup::Operations,
        UnaryMethod::CancelOrder => ServiceGroup::Orders,
        UnaryMethod::GetMaxLots => ServiceGroup::Orders,
        UnaryMethod::GetOrderPrice => ServiceGroup::Orders,
        UnaryMethod::GetOrderState => ServiceGroup::Orders,
        UnaryMethod::GetOrders => ServiceGroup::Orders,
        UnaryMethod::PostOrder => ServiceGroup::Orders,
        UnaryMethod::PostOrderAsync => ServiceGroup::Orders,
        UnaryMethod::ReplaceOrder => ServiceGroup::Orders,
        UnaryMethod::GetSignals => ServiceGroup::Signals,
        UnaryMethod::GetStrategies => ServiceGroup::Signals,
        UnaryMethod::CancelStopOrder => ServiceGroup::StopOrders,
        UnaryMethod::GetStopOrders => ServiceGroup::StopOrders,
        UnaryMethod::PostStopOrder => ServiceGroup::StopOrders,
        UnaryMethod::GetAccounts => ServiceGroup::Users,
        UnaryMethod::GetInfo => ServiceGroup::Users,
        UnaryMethod::GetMarginAttributes => ServiceGroup::Users,
        UnaryMethod::GetUserTariff => ServiceGroup::Users,
        UnaryMethod::OpenSandboxAccount => ServiceGroup::Sandbox,
        UnaryMethod::CloseSandboxAccount => ServiceGroup::Sandbox,
        UnaryMethod::SandboxPayIn => ServiceGroup::Sandbox,
    }
}

/// Which methods the sandbox variant redirects to its own service: the
/// account, order, operations and portfolio manipulation and state methods.
/// Reference data, market data, signals, stop orders and the remaining
/// user methods are shared with production.
pub open spec fn is_sandbox_redirected(m: UnaryMethod) -> bool {
    match m {
        UnaryMethod::GetOperations => true,
        UnaryMethod::GetOperationsByCursor => true,
        UnaryMethod::GetPortfolio => true,
        UnaryMethod::GetPositions => true,
        UnaryMethod::GetWithdrawLimits => true,
        UnaryMethod::CancelOrder => true,
        UnaryMethod::GetMaxLots => true,
        UnaryMethod::GetOrderState => true,
        UnaryMethod::GetOrders => true,
        UnaryMethod::PostOrder => true,
        UnaryMethod::ReplaceOrder => true,
        UnaryMethod::GetAccounts => true,
        _ => false,
    }
}

/// The service group a method is dispatched to on the production variant.
pub fn service_of(m: UnaryMethod) -> (g: ServiceGroup)
    ensures
        g == spec_service_of(m),
{
    match m {
        UnaryMethod::BondBy | UnaryMethod::Bonds | UnaryMethod::CreateFavoriteGroup
        | UnaryMethod::DeleteFavoriteGroup | UnaryMethod::Currencies | UnaryMethod::CurrencyBy
        | UnaryMethod::EditFavorites | UnaryMethod::EtfBy | UnaryMethod::Etfs
        | UnaryMethod::FindInstrument | UnaryMethod::FutureBy | UnaryMethod::Futures
        | UnaryMethod::GetAccruedInterests | UnaryMethod::GetAssetBy
        | UnaryMethod::GetAssetFundamentals | UnaryMethod::GetAssetReports
        | UnaryMethod::GetAssets | UnaryMethod::GetBondCoupons | UnaryMethod::GetBondEvents
        | UnaryMethod::GetBrandBy | UnaryMethod::GetBrands | UnaryMethod::GetConsensusForecasts
        | UnaryMethod::GetCountries | UnaryMethod::GetDividends
        | UnaryMethod::GetFavoriteGroups | UnaryMethod::GetFavorites
        | UnaryMethod::GetForecastBy | UnaryMethod::GetFuturesMargin
        | UnaryMethod::GetInstrumentBy | UnaryMethod::GetRiskRates | UnaryMethod::Indicatives
        | UnaryMethod::OptionBy | UnaryMethod::OptionsBy | UnaryMethod::ShareBy
        | UnaryMethod::Shares | UnaryMethod::TradingSchedules => ServiceGroup::Instruments,
        UnaryMethod::GetCandles | UnaryMethod::GetClosePrices | UnaryMethod::GetLastPrices
        | UnaryMethod::GetLastTrades | UnaryMethod::GetOrderBook | UnaryMethod::GetTechAnalysis
        | UnaryMethod::GetTradingStatus | UnaryMethod::GetTradingStatuses =>
            ServiceGroup::MarketData,
        UnaryMethod::GetDividendsForeignIssuer | UnaryMethod::GetOperations
        | UnaryMethod::GetOperationsByCursor | UnaryMethod::GetPortfolio
        | UnaryMethod::GetPositions | UnaryMethod::GetWithdrawLimits =>
            ServiceGroup::Operations,
        UnaryMethod::CancelOrder | UnaryMethod::GetMaxLots | UnaryMethod::GetOrderPrice
        | UnaryMethod::GetOrderState | UnaryMethod::GetOrders | UnaryMethod::PostOrder
        | UnaryMethod::PostOrderAsync | UnaryMethod::ReplaceOrder => ServiceGroup::Orders,
        UnaryMethod::GetSignals | UnaryMethod::GetStrategies => ServiceGroup::Signals,
        UnaryMethod::CancelStopOrder | UnaryMethod::GetStopOrders
        | UnaryMethod::PostStopOrder => ServiceGroup::StopOrders,
        UnaryMethod::GetAccounts | UnaryMethod::GetInfo | UnaryMethod::GetMarginAttributes
        | UnaryMethod::GetUserTariff => ServiceGroup::Users,
        UnaryMethod::OpenSandboxAccount | UnaryMethod::CloseSandboxAccount
        | UnaryMethod::SandboxPayIn => ServiceGroup::Sandbox,
    }
}

/// The service group a method is dispatched to on the sandbox variant:
/// redirected methods go to the sandbox service, every other method keeps
/// its production group.
pub fn sandbox_service_of(m: UnaryMethod) -> (g: ServiceGroup)
    ensures
        g == if is_sandbox_redirected(m) {
            ServiceGroup::Sandbox
        } else {
            spec_service_of(m)
        },
{
    match m {
        UnaryMethod::GetOperations | UnaryMethod::GetOperationsByCursor
        | UnaryMethod::GetPortfolio | UnaryMethod::GetPositions
        | UnaryMethod::GetWithdrawLimits | UnaryMethod::CancelOrder | UnaryMethod::GetMaxLots
        | UnaryMethod::GetOrderState | UnaryMethod::GetOrders | UnaryMethod::PostOrder
        | UnaryMethod::ReplaceOrder | UnaryMethod::GetAccounts => ServiceGroup::Sandbox,
        _ => service_of(m),
    }
}

/// Redirection never reroutes a reference-data, market-data, signal or
/// stop-order method: only operations, orders and user-account state move
/// to the sandbox service.
pub proof fn lemma_sandbox_redirect_scope(m: UnaryMethod)
    ensures
        is_sandbox_redirected(m) ==> (spec_service_of(m) == ServiceGroup::Operations
            || spec_service_of(m) == ServiceGroup::Orders
            || spec_service_of(m) == ServiceGroup::Users),
{
}

/// The production endpoint address.
pub fn production_endpoint() -> (r: &'static str)
    ensures
        r@ == "https://invest-public-api.tinkoff.ru"@,
{
    "https://invest-public-api.tinkoff.ru"
}

/// The sandbox endpoint address: a distinct network address, fixed per
/// variant and not independently configurable.
pub fn sandbox_endpoint() -> (r: &'static str)
    ensures
        r@ == "https://sandbox-invest-public-api.tinkoff.ru"@,
{
    "https://sandbox-invest-public-api.tinkoff.ru"
}

} // verus!
