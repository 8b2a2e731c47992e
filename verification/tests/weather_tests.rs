use pibot::city::City;
use pibot::weather::{dec_current_ex, weather_from_body, weather_url};
use pibot::json::parse_json;
use pibot::BotError;

fn london() -> City {
    City {
        name: "London".to_owned(),
        lon: "-0.1257".to_owned(),
        lat: "51.5085".to_owned(),
        country: "GB".to_owned(),
    }
}

fn sample_body() -> String {
    r#"{
        "coord": {"lon": -0.1257, "lat": 51.5085},
        "weather": [{"id": 800, "main": "Clear", "description": "clear sky", "icon": "01d"}],
        "base": "stations",
        "main": {"temp": 15.0, "feels_like": 14.0, "pressure": 1012, "humidity": 60,
                 "temp_min": 12.0, "temp_max": 17.3, "sea_level": 1012, "grnd_level": null},
        "visibility": 10000,
        "wind": {"speed": 4.1, "deg": 80, "gust": 6.2},
        "clouds": {"all": 0},
        "dt": 1661870592,
        "sys": {"type": 2, "id": 2019646, "country": "GB", "sunrise": 1661834187, "sunset": 1661882248},
        "timezone": 3600,
        "id": 2643743,
        "name": "London",
        "cod": 200
    }"#
    .to_owned()
}

#[test]
fn end_to_end_reply_for_clear_sky() {
    let city = london();
    let reply = weather_from_body(&city, &sample_body()).unwrap();
    assert_eq!(reply.title, "Weather");
    assert_eq!(reply.colour, 0xe10054);
    assert_eq!(
        reply.thumbnail,
        "https://openweathermap.org/img/wn/01d@2x.png"
    );
    let fields: Vec<(String, String)> = reply
        .fields
        .iter()
        .map(|f| (f.0.clone(), f.1.clone()))
        .collect();
    assert!(fields.contains(&("Temperature".to_owned(), "15°C".to_owned())));
    assert!(fields.contains(&("Condition".to_owned(), "clear sky".to_owned())));
    assert!(fields.contains(&("Location".to_owned(), "London, GB".to_owned())));
    assert!(fields.contains(&("Feels like".to_owned(), "14°C".to_owned())));
    assert!(fields.contains(&("Humidity".to_owned(), "60%".to_owned())));
    assert!(fields.contains(&("Wind".to_owned(), "4.1 km/h".to_owned())));
    assert!(fields.contains(&("Pressure".to_owned(), "1012 hPa".to_owned())));
    assert_eq!(reply.fields.len(), 7);
}

#[test]
fn decoded_record_carries_the_response() {
    let doc = parse_json(&sample_body()).unwrap();
    let w = dec_current_ex(&doc).unwrap();
    assert_eq!(w.weather.len(), 1);
    assert_eq!(w.weather[0].id, 800);
    assert_eq!(w.weather[0].main, "Clear");
    assert_eq!(w.main.temp, "15.0");
    assert_eq!(w.main.sea_level.as_deref(), Some("1012"));
    assert!(w.main.grnd_level.is_none());
    assert_eq!(w.wind.gust.as_deref(), Some("6.2"));
    assert!(w.rain.is_none());
    assert!(w.snow.is_none());
    assert_eq!(w.visibility, 10000);
    assert_eq!(w.dt, 1661870592);
    assert_eq!(w.sys.country, "GB");
    assert_eq!(w.sys.type_, Some(2));
    assert_eq!(w.timezone, 3600);
    assert_eq!(w.id, 2643743);
    assert_eq!(w.name, "London");
    assert_eq!(w.cod, 200);
}

#[test]
fn body_that_is_not_json_is_a_decode_error() {
    let city = london();
    assert!(matches!(
        weather_from_body(&city, "<html>oops</html>"),
        Err(BotError::Decode)
    ));
}

#[test]
fn body_missing_a_required_field_is_a_decode_error() {
    let city = london();
    let body = sample_body().replace("\"temp\": 15.0,", "");
    assert!(matches!(weather_from_body(&city, &body), Err(BotError::Decode)));
}

#[test]
fn body_with_no_condition_entry_is_a_decode_error() {
    let city = london();
    let body = sample_body().replace(
        "[{\"id\": 800, \"main\": \"Clear\", \"description\": \"clear sky\", \"icon\": \"01d\"}]",
        "[]",
    );
    assert!(matches!(weather_from_body(&city, &body), Err(BotError::Decode)));
}

#[test]
fn body_with_wrongly_typed_field_is_a_decode_error() {
    let city = london();
    let body = sample_body().replace("\"cod\": 200", "\"cod\": \"200\"");
    assert!(matches!(weather_from_body(&city, &body), Err(BotError::Decode)));
}

#[test]
fn request_url_embeds_coordinates_key_and_units() {
    let city = london();
    let url = weather_url(&city, "testkey");
    assert_eq!(
        url,
        "http://api.openweathermap.org/data/2.5/weather?lat=51.5085&lon=-0.1257&appid=testkey&units=metric"
    );
}
