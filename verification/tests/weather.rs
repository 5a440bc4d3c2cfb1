use weather_forecast_wechat_bot::errors::{DbError, StoreFailure};
use weather_forecast_wechat_bot::weather::{
    get_user_id_by_token, split_location, success_response, update_weather_data, validate_token,
    CoordinateParseError, ForecastParseError, JsonRejection, UpdateWeatherError,
    WeatherRequestInfo, WeatherResponse, WeatherStep,
};

fn request(location: &str) -> WeatherRequestInfo {
    WeatherRequestInfo {
        token: "token".to_string(),
        location: location.to_string(),
        city_name: "Hangzhou".to_string(),
    }
}

fn answer(error: UpdateWeatherError) -> (u16, String, String) {
    let (code, response) = error.into_response();
    (code, response.status, response.content)
}

fn expect(code: u16, status: &str, content: &str) -> (u16, String, String) {
    (code, status.to_string(), content.to_string())
}

#[test]
fn a_location_is_split_at_its_comma() {
    assert_eq!(
        split_location("30.2741,120.1551"),
        Ok(("30.2741".to_string(), "120.1551".to_string()))
    );
    assert_eq!(split_location(" 1 , -2 "), Ok((" 1 ".to_string(), " -2 ".to_string())));
    assert_eq!(split_location(","), Ok((String::new(), String::new())));
    assert_eq!(split_location("北,南"), Ok(("北".to_string(), "南".to_string())));
}

#[test]
fn a_location_without_one_comma_has_no_parts() {
    assert_eq!(split_location("30.2741"), Err(CoordinateParseError::Format));
    assert_eq!(split_location(""), Err(CoordinateParseError::Format));
    assert_eq!(split_location("1,2,3"), Err(CoordinateParseError::Format));
    assert_eq!(split_location(",,"), Err(CoordinateParseError::Format));
}

#[test]
fn each_failure_has_its_answer() {
    let number = "x".parse::<f64>().unwrap_err();
    let store = || DbError::Other("io".to_string());
    assert_eq!(
        answer(UpdateWeatherError::UserPostJsonError(JsonRejection::JsonDataError)),
        expect(400, "JSON_ERROR", "Invalid JSON data format")
    );
    assert_eq!(
        answer(UpdateWeatherError::UserPostJsonError(JsonRejection::JsonSyntaxError)),
        expect(400, "JSON_ERROR", "JSON syntax error")
    );
    assert_eq!(
        answer(UpdateWeatherError::UserPostJsonError(JsonRejection::MissingJsonContentType)),
        expect(400, "JSON_ERROR", "Missing content-type: application/json header")
    );
    assert_eq!(
        answer(UpdateWeatherError::UserPostJsonError(JsonRejection::Other)),
        expect(400, "JSON_ERROR", "Unknown JSON error")
    );
    assert_eq!(
        answer(UpdateWeatherError::InternalError),
        expect(500, "INTERNAL_ERROR", "An internal server error occurred")
    );
    assert_eq!(
        answer(UpdateWeatherError::UserValidationError("Uuid does not exist".to_string())),
        expect(400, "VALIDATION_ERROR", "Uuid does not exist")
    );
    assert_eq!(
        answer(UpdateWeatherError::LocationError(CoordinateParseError::Format)),
        expect(400, "JSON_ERROR", "Location format error")
    );
    assert_eq!(
        answer(UpdateWeatherError::LocationError(CoordinateParseError::ParseFloat(number))),
        expect(400, "JSON_ERROR", "Location parse number error")
    );
    assert_eq!(
        answer(UpdateWeatherError::LocationError(CoordinateParseError::InvalidValue)),
        expect(400, "JSON_ERROR", "Location range error")
    );
    assert_eq!(
        answer(UpdateWeatherError::WeatherServerError("timeout".to_string())),
        expect(400, "WEATHER_SERVER_ERROR", "Weather server error")
    );
    assert_eq!(
        answer(UpdateWeatherError::ForecastWriteError(ForecastParseError::TimeParseError(
            "bad".to_string()
        ))),
        expect(400, "TIME_PARSE_ERROR", "Forecast time format parse error")
    );
    assert_eq!(
        answer(UpdateWeatherError::ForecastWriteError(ForecastParseError::DatabaseError(store()))),
        expect(400, "WEATHER_DATABASE_ERROR", "Weather data write database error")
    );
    assert_eq!(
        answer(UpdateWeatherError::ForecastWriteError(ForecastParseError::JsonParseError(
            "bad".to_string()
        ))),
        expect(400, "JSON_ERROR", "Weather data json parse error")
    );
    assert_eq!(
        answer(UpdateWeatherError::DatabaseError(store())),
        expect(400, "WEATHER_DATABASE_ERROR", "Database connection error")
    );
}

#[test]
fn a_token_is_valid_where_the_table_says_so() {
    assert_eq!(validate_token(Ok(Some(true))), Ok(true));
    assert_eq!(validate_token(Ok(Some(false))), Ok(false));
    assert_eq!(validate_token(Ok(None)), Ok(false));
    assert_eq!(
        validate_token(Err(StoreFailure::PoolTimedOut { description: "late".to_string() })),
        Err(UpdateWeatherError::ForecastWriteError(ForecastParseError::DatabaseError(
            DbError::TimeOut("late".to_string())
        )))
    );
}

#[test]
fn a_token_leads_to_its_owner() {
    assert_eq!(get_user_id_by_token(Ok(Some(77))), Ok(77));
    assert_eq!(
        get_user_id_by_token(Ok(None)),
        Err(UpdateWeatherError::UserValidationError("Uuid does not exist".to_string()))
    );
    assert_eq!(
        get_user_id_by_token(Err(StoreFailure::Database { message: "no connection".to_string() })),
        Err(UpdateWeatherError::DatabaseError(DbError::ConnectionError {
            message: "no connection".to_string()
        }))
    );
}

#[test]
fn an_update_goes_on_for_a_valid_token_and_a_location() {
    assert_eq!(
        update_weather_data(Ok(request("30.2741,120.1551")), true),
        Ok(WeatherStep::Proceed {
            token: "token".to_string(),
            latitude: "30.2741".to_string(),
            longitude: "120.1551".to_string(),
            city_name: "Hangzhou".to_string(),
        })
    );
}

#[test]
fn an_update_ends_for_a_token_that_is_nobodys() {
    assert_eq!(
        update_weather_data(Ok(request("30.2741,120.1551")), false),
        Ok(WeatherStep::Respond(WeatherResponse {
            status: "FAILED_UPDATE".to_string(),
            content: "Permission error, please log in again".to_string(),
        }))
    );
    // The token is looked at before the location.
    assert!(matches!(
        update_weather_data(Ok(request("nowhere")), false),
        Ok(WeatherStep::Respond(_))
    ));
}

#[test]
fn an_update_fails_for_a_body_or_a_location_that_cannot_be_read() {
    assert_eq!(
        update_weather_data(Err(JsonRejection::JsonSyntaxError), true),
        Err(UpdateWeatherError::UserPostJsonError(JsonRejection::JsonSyntaxError))
    );
    assert_eq!(
        update_weather_data(Ok(request("nowhere")), true),
        Err(UpdateWeatherError::LocationError(CoordinateParseError::Format))
    );
}

#[test]
fn an_update_that_went_through_says_so() {
    assert_eq!(
        success_response(),
        WeatherResponse {
            status: "SUCCESS_UPDATE".to_string(),
            content: "Success update weather info".to_string(),
        }
    );
}
