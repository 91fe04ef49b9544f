//! Typed client library for the Romanian tax authority's (ANAF) public web
//! services.
//!
//! The library translates structured domain requests into HTTP request plans,
//! and interprets the service's responses as strongly-typed values. Network
//! transport and the JSON codec are external collaborators: the verified core
//! validates requests, composes URLs and query strings, dispatches HTTP
//! statuses to the error taxonomy, and assembles the Balance endpoint's raw
//! records into a keyed, ordered container over two disjoint indicator
//! dictionaries.

mod balance_api;
mod balance_codes;
mod balance_container;
mod balance_response;
mod client;
mod cults;
mod date;
mod farmers;
mod error;
mod protocol;
mod request;
mod response;
mod text;
mod vat_payer;

pub use balance_api::spec_balance_query;
pub use balance_api::BalanceApi;
pub use balance_api::BalanceApiVersion;
pub use balance_api::BalanceRequest;
pub use balance_codes::code_string;
pub use balance_codes::lemma_company_code_round_trip;
pub use balance_codes::lemma_company_dictionary_distinct;
pub use balance_codes::lemma_ngo_code_round_trip;
pub use balance_codes::lemma_ngo_dictionary_distinct;
pub use balance_codes::lemma_rank_injective;
pub use balance_codes::parse_code;
pub use balance_codes::spec_code;
pub use balance_codes::spec_code_value;
pub use balance_codes::BalanceIndicator;
pub use balance_container::lemma_container_ordered;
pub use balance_container::seq_to_map;
pub use balance_container::Balance;
pub use balance_response::dictionary_size;
pub use balance_response::lemma_balance_dispatch;
pub use balance_response::record_resolves;
pub use balance_response::records_mark_ngo;
pub use balance_response::spec_assemble;
pub use balance_response::spec_key_of;
pub use balance_response::BalanceRawResponse;
pub use balance_response::BalanceResponse;
pub use balance_response::RawBalance;
pub use balance_codes::CompanyBalanceIndicatorKind;
pub use balance_codes::EntityKind;
pub use balance_codes::NgoBalanceIndicatorKind;
pub use client::spec_async_vat_payer_url;
pub use client::spec_balance_url;
pub use client::spec_cult_url;
pub use client::spec_default_base_url;
pub use client::spec_farmer_url;
pub use client::spec_vat_payer_url;
pub use client::AnafClient;
pub use cults::CultApi;
pub use cults::CultApiVersion;
pub use cults::CultResponse;
pub use cults::CultResponseItem;
pub use date::days_in_month;
pub use date::is_leap_year;
pub use date::spec_days_in_month;
pub use date::spec_is_leap_year;
pub use date::Date;
pub use farmers::FarmerApi;
pub use farmers::FarmerApiVersion;
pub use farmers::FarmerResponse;
pub use farmers::FarmerResponseItem;
pub use error::ApiError;
pub use protocol::accept_decoded;
pub use protocol::classify_status;
pub use protocol::validate_request;
pub use protocol::REQUEST_LIMIT;
pub use request::ApiRequest;
pub use response::ApiResponse;
pub use response::AsyncApiResponse;
pub use error::DecodeError;
pub use text::char_digit;
pub use text::dec_rep;
pub use text::digit_char;
pub use text::render_dec;
pub use vat_payer::Address;
pub use vat_payer::CompanyInfo;
pub use vat_payer::InactiveStatus;
pub use vat_payer::VatPayerApi;
pub use vat_payer::VatPayerApiVersion;
pub use vat_payer::VatPayerAsyncApi;
pub use vat_payer::VatPayerAsyncResponse;
pub use vat_payer::VatPayerAsyncToken;
pub use vat_payer::VatPayerIncome;
pub use vat_payer::VatPayerInterval;
pub use vat_payer::VatPayerResponse;
pub use vat_payer::VatPayerResponseItem;
pub use vat_payer::VatScope;
pub use vat_payer::VatSplit;
