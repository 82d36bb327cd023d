//! The closed set of consent features the engine understands, each mapped to
//! the fixed lowercase identifier used on the wire.

use vstd::prelude::*;

verus! {

/// A feature a visitor can grant or withhold consent for.
#[derive(Debug, Clone, Copy, PartialEq, Eq, Structural)]
pub enum ConsentFeatures {
    /// tracking when, how often and how long users use the site
    Sessions,
    /// sending custom events to the server
    Events,
    /// tracking which views/pages a user accesses
    Views,
    /// tracking user scrolls for the scroll heatmap
    Scrolls,
    /// tracking user clicks for heatmaps and link clicks
    Clicks,
    /// tracking the user's form submissions
    Forms,
    /// tracking script errors
    Crashes,
    /// tracking which campaign a user came from
    Attribution,
    /// collecting user information, including custom properties
    Users,
    /// rating and feedback collection
    StarRating,
    /// recording the user's coarse location
    Location,
}

impl ConsentFeatures {
    /// The fixed wire identifier of the feature.
    pub open spec fn ident(self) -> Seq<char> {
        match self {
            ConsentFeatures::Sessions => "sessions"@,
            ConsentFeatures::Events => "events"@,
            ConsentFeatures::Views => "views"@,
            ConsentFeatures::Scrolls => "scrolls"@,
            ConsentFeatures::Clicks => "clicks"@,
            ConsentFeatures::Forms => "forms"@,
            ConsentFeatures::Crashes => "crashes"@,
            ConsentFeatures::Attribution => "attribution"@,
            ConsentFeatures::Users => "users"@,
            ConsentFeatures::StarRating => "star-rating"@,
            ConsentFeatures::Location => "location"@,
        }
    }

    /// The wire identifier of the feature, as sent to the engine's consent
    /// and feature-grouping entry points.
    pub fn as_str(self) -> (r: &'static str)
        ensures
            r@ == self.ident(),
    {
        match self {
            ConsentFeatures::Sessions => "sessions",
            ConsentFeatures::Events => "events",
            ConsentFeatures::Views => "views",
            ConsentFeatures::Scrolls => "scrolls",
            ConsentFeatures::Clicks => "clicks",
            ConsentFeatures::Forms => "forms",
            ConsentFeatures::Crashes => "crashes",
            ConsentFeatures::Attribution => "attribution",
            ConsentFeatures::Users => "users",
            ConsentFeatures::StarRating => "star-rating",
            ConsentFeatures::Location => "location",
        }
    }
}

} // verus!
