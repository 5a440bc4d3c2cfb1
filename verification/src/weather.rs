//! The decisions of a weather update: whether it goes on, and how its
//! failures are answered.
use crate::errors::{classify, DbError, DbErrorView, StoreFailure};
use vstd::prelude::*;
use vstd::std_specs::convert::FromSpec;
use vstd::string::{StrSliceExecFns, StringExecFns};

verus! {

/// The error of parsing a number, carried as it is.
#[verifier::external_type_specification]
#[verifier::external_body]
pub struct ExParseFloatError(std::num::ParseFloatError);

/// What a request for a weather update holds.
#[derive(Debug, PartialEq, Eq)]
pub struct WeatherRequestInfo {
    pub token: String,
    pub location: String,
    pub city_name: String,
}

/// The answer to a request for a weather update.
#[derive(Debug, PartialEq, Eq)]
pub struct WeatherResponse {
    pub status: String,
    pub content: String,
}

/// Why a location is no pair of coordinates.
#[derive(Debug, PartialEq, Eq)]
pub enum CoordinateParseError {
    /// The location is not two parts with a comma between them.
    Format,
    /// A part is no number.
    ParseFloat(std::num::ParseFloatError),
    /// A coordinate lies outside its range.
    InvalidValue,
}

/// How many commas a text holds.
pub open spec fn commas(text: Seq<char>) -> nat
    decreases text.len(),
{
    if text.len() == 0 {
        0
    } else {
        commas(text.drop_last()) + if text.last() == ',' {
            1nat
        } else {
            0nat
        }
    }
}

/// The two parts of a location: what stands before its one comma and what
/// stands after it. A text without a comma, or with more than one, has none.
pub open spec fn location_parts(text: Seq<char>) -> Option<(Seq<char>, Seq<char>)> {
    if commas(text) == 1 {
        let at = choose|at: int| 0 <= at < text.len() && text[at] == ',';
        Some((text.subrange(0, at), text.subrange(at + 1, text.len() as int)))
    } else {
        None
    }
}

/// The commas up to and with a position are those before it and the one at
/// it, if there is one.
proof fn commas_of_prefix(text: Seq<char>, end: int)
    requires
        0 <= end < text.len(),
    ensures
        commas(text.take(end + 1)) == commas(text.take(end)) + if text[end] == ',' {
            1nat
        } else {
            0nat
        },
{
    assert(text.take(end + 1).drop_last() == text.take(end));
}

/// A text with a comma holds at least one.
proof fn a_comma_counts(text: Seq<char>, at: int)
    requires
        0 <= at < text.len(),
        text[at] == ',',
    ensures
        commas(text) >= 1,
    decreases text.len(),
{
    if at < text.len() - 1 {
        assert(text.drop_last()[at] == ',');
        a_comma_counts(text.drop_last(), at);
    }
}

/// A text with commas at two positions holds at least two.
proof fn two_commas_count(text: Seq<char>, first: int, second: int)
    requires
        0 <= first < second < text.len(),
        text[first] == ',',
        text[second] == ',',
    ensures
        commas(text) >= 2,
    decreases text.len(),
{
    if second < text.len() - 1 {
        assert(text.drop_last()[first] == ',');
        assert(text.drop_last()[second] == ',');
        two_commas_count(text.drop_last(), first, second);
    } else {
        assert(text.drop_last()[first] == ',');
        a_comma_counts(text.drop_last(), first);
    }
}

/// Splits a location at its comma.
pub fn split_location(location: &str) -> (parts: Result<(String, String), CoordinateParseError>)
    ensures
        match parts {
            Ok((latitude, longitude)) => location_parts(location@) == Some(
                (latitude@, longitude@),
            ),
            Err(error) => location_parts(location@) is None && error is Format,
        },
{
    let length = location.unicode_len();
    let mut count: usize = 0;
    let mut comma_at: usize = 0;
    let mut position: usize = 0;
    while position < length
        invariant
            length == location@.len(),
            position <= length,
            count <= position,
            count == commas(location@.take(position as int)),
            count >= 1 ==> comma_at < position && location@[comma_at as int] == ',',
        decreases length - position,
    {
        proof {
            commas_of_prefix(location@, position as int);
        }
        if location.get_char(position) == ',' {
            count += 1;
            comma_at = position;
        }
        position += 1;
    }
    assert(location@.take(length as int) == location@);
    if count != 1 {
        return Err(CoordinateParseError::Format);
    }
    proof {
        let text = location@;
        let at = choose|at: int| 0 <= at < text.len() && text[at] == ',';
        if at < comma_at {
            two_commas_count(text, at, comma_at as int);
        }
        if comma_at < at {
            two_commas_count(text, comma_at as int, at);
        }
    }
    let latitude = location.substring_char(0, comma_at);
    let longitude = location.substring_char(comma_at + 1, length);
    Ok((String::from_str(latitude), String::from_str(longitude)))
}

/// Why the body of a request could not be read as JSON.
#[derive(Clone, Copy, Debug, PartialEq, Eq, Structural)]
pub enum JsonRejection {
    JsonDataError,
    JsonSyntaxError,
    MissingJsonContentType,
    Other,
}

/// Why a forecast could not be stored.
#[derive(Debug, PartialEq, Eq)]
pub enum ForecastParseError {
    TimeParseError(String),
    DatabaseError(DbError),
    JsonParseError(String),
}

/// Why a weather update failed.
#[derive(Debug, PartialEq, Eq)]
pub enum UpdateWeatherError {
    UserPostJsonError(JsonRejection),
    UserValidationError(String),
    InternalError,
    LocationError(CoordinateParseError),
    DatabaseError(DbError),
    WeatherServerError(String),
    ForecastWriteError(ForecastParseError),
}

/// The kind of a failed weather update, and the text it carries where the
/// answer shows it.
pub ghost enum UpdateWeatherErrorView {
    UserPostJsonError(JsonRejection),
    UserValidationError(Seq<char>),
    InternalError,
    LocationFormat,
    LocationParseFloat,
    LocationInvalidValue,
    DatabaseError(DbErrorView),
    WeatherServerError,
    ForecastTimeParseError,
    ForecastDatabaseError(DbErrorView),
    ForecastJsonParseError,
}

impl View for UpdateWeatherError {
    type V = UpdateWeatherErrorView;

    open spec fn view(&self) -> UpdateWeatherErrorView {
        match *self {
            UpdateWeatherError::UserPostJsonError(rejection) =>
                UpdateWeatherErrorView::UserPostJsonError(rejection),
            UpdateWeatherError::UserValidationError(message) =>
                UpdateWeatherErrorView::UserValidationError(message@),
            UpdateWeatherError::InternalError => UpdateWeatherErrorView::InternalError,
            UpdateWeatherError::LocationError(CoordinateParseError::Format) =>
                UpdateWeatherErrorView::LocationFormat,
            UpdateWeatherError::LocationError(CoordinateParseError::ParseFloat(_)) =>
                UpdateWeatherErrorView::LocationParseFloat,
            UpdateWeatherError::LocationError(CoordinateParseError::InvalidValue) =>
                UpdateWeatherErrorView::LocationInvalidValue,
            UpdateWeatherError::DatabaseError(error) => UpdateWeatherErrorView::DatabaseError(
                error@,
            ),
            UpdateWeatherError::WeatherServerError(_) => UpdateWeatherErrorView::WeatherServerError,
            UpdateWeatherError::ForecastWriteError(ForecastParseError::TimeParseError(_)) =>
                UpdateWeatherErrorView::ForecastTimeParseError,
            UpdateWeatherError::ForecastWriteError(ForecastParseError::DatabaseError(error)) =>
                UpdateWeatherErrorView::ForecastDatabaseError(error@),
            UpdateWeatherError::ForecastWriteError(ForecastParseError::JsonParseError(_)) =>
                UpdateWeatherErrorView::ForecastJsonParseError,
        }
    }
}

/// The HTTP status of the answer to a failed weather update: 500 for an
/// internal error, 400 for every other.
pub open spec fn status_code(error: UpdateWeatherErrorView) -> u16 {
    match error {
        UpdateWeatherErrorView::InternalError => 500,
        _ => 400,
    }
}

/// The status word of the answer to a failed weather update.
pub open spec fn status_word(error: UpdateWeatherErrorView) -> Seq<char> {
    match error {
        UpdateWeatherErrorView::UserPostJsonError(_) => "JSON_ERROR"@,
        UpdateWeatherErrorView::UserValidationError(_) => "VALIDATION_ERROR"@,
        UpdateWeatherErrorView::InternalError => "INTERNAL_ERROR"@,
        UpdateWeatherErrorView::LocationFormat => "JSON_ERROR"@,
        UpdateWeatherErrorView::LocationParseFloat => "JSON_ERROR"@,
        UpdateWeatherErrorView::LocationInvalidValue => "JSON_ERROR"@,
        UpdateWeatherErrorView::DatabaseError(_) => "WEATHER_DATABASE_ERROR"@,
        UpdateWeatherErrorView::WeatherServerError => "WEATHER_SERVER_ERROR"@,
        UpdateWeatherErrorView::ForecastTimeParseError => "TIME_PARSE_ERROR"@,
        UpdateWeatherErrorView::ForecastDatabaseError(_) => "WEATHER_DATABASE_ERROR"@,
        UpdateWeatherErrorView::ForecastJsonParseError => "JSON_ERROR"@,
    }
}

/// What the answer to a failed weather update tells the caller.
pub open spec fn status_content(error: UpdateWeatherErrorView) -> Seq<char> {
    match error {
        UpdateWeatherErrorView::UserPostJsonError(rejection) => match rejection {
            JsonRejection::JsonDataError => "Invalid JSON data format"@,
            JsonRejection::JsonSyntaxError => "JSON syntax error"@,
            JsonRejection::MissingJsonContentType =>
                "Missing content-type: application/json header"@,
            JsonRejection::Other => "Unknown JSON error"@,
        },
        UpdateWeatherErrorView::UserValidationError(message) => message,
        UpdateWeatherErrorView::InternalError => "An internal server error occurred"@,
        UpdateWeatherErrorView::LocationFormat => "Location format error"@,
        UpdateWeatherErrorView::LocationParseFloat => "Location parse number error"@,
        UpdateWeatherErrorView::LocationInvalidValue => "Location range error"@,
        UpdateWeatherErrorView::DatabaseError(_) => "Database connection error"@,
        UpdateWeatherErrorView::WeatherServerError => "Weather server error"@,
        UpdateWeatherErrorView::ForecastTimeParseError => "Forecast time format parse error"@,
        UpdateWeatherErrorView::ForecastDatabaseError(_) => "Weather data write database error"@,
        UpdateWeatherErrorView::ForecastJsonParseError => "Weather data json parse error"@,
    }
}

impl UpdateWeatherError {
    /// The answer to a failed weather update: its HTTP status and its body.
    pub fn into_response(self) -> (response: (u16, WeatherResponse))
        ensures
            response.0 == status_code(self@),
            response.1.status@ == status_word(self@),
            response.1.content@ == status_content(self@),
    {
        let (status_code, status, content): (u16, &str, String) = match self {
            UpdateWeatherError::UserPostJsonError(json_rejection) => {
                let content_message = match json_rejection {
                    JsonRejection::JsonDataError => "Invalid JSON data format",
                    JsonRejection::JsonSyntaxError => "JSON syntax error",
                    JsonRejection::MissingJsonContentType =>
                        "Missing content-type: application/json header",
                    JsonRejection::Other => "Unknown JSON error",
                };
                (400, "JSON_ERROR", String::from_str(content_message))
            },
            UpdateWeatherError::InternalError => (
                500,
                "INTERNAL_ERROR",
                String::from_str("An internal server error occurred"),
            ),
            UpdateWeatherError::UserValidationError(msg) => (400, "VALIDATION_ERROR", msg),
            UpdateWeatherError::LocationError(location_parse) => {
                let content_message = match location_parse {
                    CoordinateParseError::Format => "Location format error",
                    CoordinateParseError::ParseFloat(_) => "Location parse number error",
                    CoordinateParseError::InvalidValue => "Location range error",
                };
                (400, "JSON_ERROR", String::from_str(content_message))
            },
            UpdateWeatherError::WeatherServerError(_) => (
                400,
                "WEATHER_SERVER_ERROR",
                String::from_str("Weather server error"),
            ),
            UpdateWeatherError::ForecastWriteError(error) => match error {
                ForecastParseError::TimeParseError(_) => (
                    400,
                    "TIME_PARSE_ERROR",
                    String::from_str("Forecast time format parse error"),
                ),
                ForecastParseError::DatabaseError(_) => (
                    400,
                    "WEATHER_DATABASE_ERROR",
                    String::from_str("Weather data write database error"),
                ),
                ForecastParseError::JsonParseError(_) => (
                    400,
                    "JSON_ERROR",
                    String::from_str("Weather data json parse error"),
                ),
            },
            UpdateWeatherError::DatabaseError(_) => (
                400,
                "WEATHER_DATABASE_ERROR",
                String::from_str("Database connection error"),
            ),
        };
        (status_code, WeatherResponse { status: String::from_str(status), content })
    }
}

/// Whether a token is some user's, given what the token table answered to
/// the question whether a row holds it. A table that gives no answer counts
/// as a no; a failure of the store is an error.
pub fn validate_token(row: Result<Option<bool>, StoreFailure>) -> (valid: Result<
    bool,
    UpdateWeatherError,
>)
    ensures
        match row {
            Ok(exists) => valid == Ok::<bool, UpdateWeatherError>(exists == Some(true)),
            Err(failure) => valid matches Err(error) && error@
                == UpdateWeatherErrorView::ForecastDatabaseError(classify(failure)@),
        },
{
    match row {
        Ok(Some(true)) => Ok(true),
        Ok(Some(false)) => Ok(false),
        Ok(None) => Ok(false),
        Err(failure) => Err(
            UpdateWeatherError::ForecastWriteError(
                ForecastParseError::DatabaseError(DbError::from(failure)),
            ),
        ),
    }
}

/// The message for a token that is no user's.
pub open spec fn no_owner_message() -> Seq<char> {
    "Uuid does not exist"@
}

/// The user that a token belongs to, given what the token table holds for
/// the token: the owner where there is a row, an error where there is none
/// or the store failed.
pub fn get_user_id_by_token(row: Result<Option<u128>, StoreFailure>) -> (owner: Result<
    u128,
    UpdateWeatherError,
>)
    ensures
        match row {
            Ok(Some(user_id)) => owner == Ok::<u128, UpdateWeatherError>(user_id),
            Ok(None) => owner matches Err(error) && error@
                == UpdateWeatherErrorView::UserValidationError(no_owner_message()),
            Err(failure) => owner matches Err(error) && error@
                == UpdateWeatherErrorView::DatabaseError(classify(failure)@),
        },
{
    match row {
        Ok(Some(user_id)) => Ok(user_id),
        Ok(None) => Err(
            UpdateWeatherError::UserValidationError(String::from_str("Uuid does not exist")),
        ),
        Err(failure) => Err(UpdateWeatherError::DatabaseError(DbError::from(failure))),
    }
}

/// How a weather update goes on once its token has been looked at.
#[derive(Debug, PartialEq, Eq)]
pub enum WeatherStep {
    /// The update goes on for this place.
    Proceed { token: String, latitude: String, longitude: String, city_name: String },
    /// The update ends here with this answer.
    Respond(WeatherResponse),
}

/// The answer to a weather update that went through.
pub fn success_response() -> (response: WeatherResponse)
    ensures
        response.status@ == "SUCCESS_UPDATE"@,
        response.content@ == "Success update weather info"@,
{
    WeatherResponse {
        status: String::from_str("SUCCESS_UPDATE"),
        content: String::from_str("Success update weather info"),
    }
}

/// Decides how a weather update goes on, given the request and whether its
/// token is some user's. A token that is nobody's ends the update with an
/// answer that says so; a location that is not two parts with a comma
/// between them is an error; otherwise the update goes on with the parts.
pub fn update_weather_data(
    weather_request: Result<WeatherRequestInfo, JsonRejection>,
    validate_bool: bool,
) -> (step: Result<WeatherStep, UpdateWeatherError>)
    ensures
        match weather_request {
            Err(rejection) => step matches Err(error) && error@
                == UpdateWeatherErrorView::UserPostJsonError(rejection),
            Ok(request) => if !validate_bool {
                &&& step matches Ok(WeatherStep::Respond(response))
                &&& response.status@ == "FAILED_UPDATE"@
                &&& response.content@ == "Permission error, please log in again"@
            } else {
                match location_parts(request.location@) {
                    Some((before, after)) => {
                        &&& step matches Ok(
                            WeatherStep::Proceed { token, latitude, longitude, city_name },
                        )
                        &&& token@ == request.token@
                        &&& latitude@ == before
                        &&& longitude@ == after
                        &&& city_name@ == request.city_name@
                    },
                    None => step matches Err(error) && error@
                        == UpdateWeatherErrorView::LocationFormat,
                }
            },
        },
{
    let request = match weather_request {
        Ok(request) => request,
        Err(rejection) => {
            return Err(UpdateWeatherError::UserPostJsonError(rejection));
        },
    };
    if !validate_bool {
        return Ok(
            WeatherStep::Respond(
                WeatherResponse {
                    status: String::from_str("FAILED_UPDATE"),
                    content: String::from_str("Permission error, please log in again"),
                },
            ),
        );
    }
    match split_location(request.location.as_str()) {
        Ok((latitude, longitude)) => Ok(
            WeatherStep::Proceed {
                token: request.token,
                latitude,
                longitude,
                city_name: request.city_name,
            },
        ),
        Err(error) => Err(UpdateWeatherError::LocationError(error)),
    }
}

} // verus!
