use blitzer_notifier::location_type::LocationType;
use blitzer_notifier::request::{default_request_params, BlitzerClientRequestParams, LocationBox};

fn munich_box() -> LocationBox {
    LocationBox {
        lat_min: "48.061".to_string(),
        lng_min: "11.361".to_string(),
        lat_max: "48.248".to_string(),
        lng_max: "11.722".to_string(),
    }
}

#[test]
fn location_box_renders_comma_separated() {
    assert_eq!(munich_box().to_text(), "48.061,11.361,48.248,11.722");
}

#[test]
fn request_params_render_exactly() {
    let params = BlitzerClientRequestParams {
        zoom_level: 5,
        types: vec![LocationType::BlitzerMobile0, LocationType::Blitzer101, LocationType::BlitzerTeilstat],
        location_box: munich_box(),
    };
    assert_eq!(
        params.get_request_params(),
        "?z=5&type=0,101,ts&box=48.061,11.361,48.248,11.722"
    );
}

#[test]
fn request_params_with_no_types() {
    let params = BlitzerClientRequestParams {
        zoom_level: 0,
        types: Vec::new(),
        location_box: munich_box(),
    };
    assert_eq!(params.get_request_params(), "?z=0&type=&box=48.061,11.361,48.248,11.722");
}

#[test]
fn negative_zoom_gets_a_minus_sign() {
    let params = BlitzerClientRequestParams {
        zoom_level: -12,
        types: vec![LocationType::Tunnel],
        location_box: munich_box(),
    };
    assert_eq!(params.get_request_params(), "?z=-12&type=114&box=48.061,11.361,48.248,11.722");
}

#[test]
fn default_request_uses_zoom_five_and_the_default_list() {
    let params = default_request_params(munich_box());
    assert_eq!(params.zoom_level, 5);
    assert_eq!(params.types.len(), 25);
    assert!(params.types.iter().all(|t| t.is_default()));
    assert_eq!(
        params.get_request_params(),
        "?z=5&type=0,1,2,3,4,5,6,101,102,103,104,105,106,107,108,109,110,111,112,113,114,115,117,ts,vwd&box=48.061,11.361,48.248,11.722"
    );
}
