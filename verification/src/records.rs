//! The gateway's model of a stored listing and of the fixed projection
//! the search pipeline returns. Monetary and fractional fields are held
//! as scaled integers: `price_cents` is the price in hundredths of the
//! unit, `bathrooms_tenths` the bathroom count in tenths, so a record is
//! made of plain values only.

use vstd::prelude::*;

verus! {

/// The host block of a stored listing.
#[derive(Debug, Clone)]
pub struct Host {
    pub host_id: String,
    pub host_url: String,
    pub host_name: String,
    pub host_location: String,
    pub host_about: Option<String>,
    pub host_response_time: Option<String>,
    pub host_thumbnail_url: String,
    pub host_picture_url: String,
    pub host_neighbourhood: Option<String>,
    pub host_response_rate: Option<i32>,
    pub host_is_superhost: bool,
    pub host_has_profile_pic: bool,
    pub host_identity_verified: bool,
    pub host_listings_count: i32,
    pub host_total_listings_count: i32,
    pub host_verifications: Vec<String>,
}

/// The availability block of a stored listing.
#[derive(Debug, Clone, Copy)]
pub struct Availability {
    pub availability_30: i32,
    pub availability_60: i32,
    pub availability_90: i32,
    pub availability_365: i32,
}

/// The review-score block of a stored listing.
#[derive(Debug, Clone, Copy)]
pub struct ReviewScores {
    pub review_scores_accuracy: Option<i32>,
    pub review_scores_cleanliness: Option<i32>,
    pub review_scores_checkin: Option<i32>,
    pub review_scores_communication: Option<i32>,
    pub review_scores_location: Option<i32>,
    pub review_scores_value: Option<i32>,
    pub review_scores_rating: Option<i32>,
}

/// What the search pipeline reads of a stored listing: the internal
/// identifier and the projectable fields.
#[derive(Debug, Clone)]
pub struct StoredRecord {
    pub id: i64,
    pub name: String,
    pub summary: Option<String>,
    pub description: Option<String>,
    pub beds: Option<i64>,
    pub bedrooms: Option<i64>,
    pub bathrooms_tenths: Option<i64>,
    pub amenities: Vec<String>,
    pub price_cents: Option<i64>,
}

/// The fixed projection returned to the caller: the record's descriptive
/// fields without its internal identifier (which this type cannot carry).
#[derive(Debug, Clone)]
pub struct ProjectedRecord {
    pub name: String,
    pub summary: Option<String>,
    pub description: Option<String>,
    pub beds: Option<i64>,
    pub bedrooms: Option<i64>,
    pub bathrooms_tenths: Option<i64>,
    pub amenities: Vec<String>,
    pub price_cents: Option<i64>,
}

/// `p` carries exactly the projectable fields of `r`, unchanged.
pub open spec fn is_projection_of(p: ProjectedRecord, r: StoredRecord) -> bool {
    &&& p.name@ == r.name@
    &&& p.summary.deep_view() == r.summary.deep_view()
    &&& p.description.deep_view() == r.description.deep_view()
    &&& p.beds == r.beds
    &&& p.bedrooms == r.bedrooms
    &&& p.bathrooms_tenths == r.bathrooms_tenths
    &&& p.amenities.deep_view() == r.amenities.deep_view()
    &&& p.price_cents == r.price_cents
}

/// Apply the fixed field projection: keep name, summary, description,
/// beds, bedrooms, bathrooms, amenities and price; drop the identifier.
pub fn project(r: &StoredRecord) -> (p: ProjectedRecord)
    ensures
        is_projection_of(p, *r),
{
    let summary = match &r.summary {
        Some(s) => Some(s.clone()),
        None => None,
    };
    let description = match &r.description {
        Some(s) => Some(s.clone()),
        None => None,
    };
    let amenities = r.amenities.clone();
    proof {
        assert forall|i: int| 0 <= i < r.amenities@.len() implies amenities.deep_view()[i]
            == r.amenities.deep_view()[i] by {
            assert(cloned::<String>(r.amenities@[i], amenities@[i]));
        }
        assert(amenities.deep_view() =~= r.amenities.deep_view());
    }
    ProjectedRecord {
        name: r.name.clone(),
        summary,
        description,
        beds: r.beds,
        bedrooms: r.bedrooms,
        bathrooms_tenths: r.bathrooms_tenths,
        amenities,
        price_cents: r.price_cents,
    }
}

} // verus!
