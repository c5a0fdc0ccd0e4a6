//! Request routing tables, page shells and response bodies of the
//! cooperative-management server, with their behaviour stated as contracts.

pub mod api;
pub mod health;
pub mod pages;
pub mod text;

pub use api::{
    api_info, api_routes, health_report, ApiInfo, ApiResource, ApiRoute, Endpoint, HealthReport,
    RouteMethod,
};
pub use health::{health_card_style, health_page_cards, HealthCardInfo, HealthCardStyle, HealthTone};
pub use pages::{dashboard_metrics, DashboardMetric, DocumentShell, Page};
pub use text::{same_text, with_class};
