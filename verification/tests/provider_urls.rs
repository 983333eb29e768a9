use imagebot::providers::{
    http_cat_url, http_dog_url, AnimalOnlineChoices, ApiConfig, Provider, PurrbotImageChoices,
};

fn config() -> ApiConfig {
    ApiConfig {
        cat_api_key: String::from("CATKEY"),
        dog_api_key: String::from("DOGKEY"),
    }
}

#[test]
fn cat_api_url_appends_key() {
    let url = Provider::TheCatApi.request_url(&config());
    assert_eq!(url, "https://api.thecatapi.com/v1/images/search?api_key=CATKEY");
}

#[test]
fn dog_api_url_appends_key() {
    let url = Provider::TheDogApi.request_url(&config());
    assert_eq!(url, "https://api.thedogapi.com/v1/images/search?api_key=DOGKEY");
}

#[test]
fn fixed_provider_urls() {
    let c = config();
    assert_eq!(Provider::RandomFox.request_url(&c), "https://randomfox.ca/floof/");
    assert_eq!(Provider::AwsRandomCat.request_url(&c), "https://aws.random.cat/meow");
    assert_eq!(Provider::RandomDog.request_url(&c), "https://random.dog/woof.json");
    assert_eq!(Provider::RandomDuck.request_url(&c), "https://random-d.uk/api/v2/random");
}

#[test]
fn shibe_online_urls() {
    let c = config();
    assert_eq!(
        Provider::ShibeOnline(AnimalOnlineChoices::Shibe).request_url(&c),
        "http://shibe.online/api/shibes"
    );
    assert_eq!(
        Provider::ShibeOnline(AnimalOnlineChoices::Bird).request_url(&c),
        "http://shibe.online/api/birds"
    );
    assert_eq!(
        Provider::ShibeOnline(AnimalOnlineChoices::Cat).request_url(&c),
        "http://shibe.online/api/cats"
    );
}

#[test]
fn purrbot_urls() {
    let c = config();
    assert_eq!(
        Provider::Purrbot(PurrbotImageChoices::Neko).request_url(&c),
        "https://purrbot.site/api/img/sfw/neko/img"
    );
    assert_eq!(
        Provider::Purrbot(PurrbotImageChoices::Okami).request_url(&c),
        "https://purrbot.site/api/img/sfw/okami/img"
    );
    assert_eq!(
        Provider::Purrbot(PurrbotImageChoices::Kitsune).request_url(&c),
        "https://purrbot.site/api/img/sfw/kitsune/img"
    );
}

#[test]
fn waifu_pics_urls() {
    let c = config();
    assert_eq!(Provider::WaifuPics(true).request_url(&c), "https://api.waifu.pics/sfw/neko");
    assert_eq!(Provider::WaifuPics(false).request_url(&c), "https://api.waifu.pics/sfw/waifu");
}

#[test]
fn choice_path_segments() {
    assert_eq!(AnimalOnlineChoices::Bird.as_str(), "birds");
    assert_eq!(AnimalOnlineChoices::Shibe.as_str(), "shibes");
    assert_eq!(AnimalOnlineChoices::Cat.as_str(), "cats");
    assert_eq!(PurrbotImageChoices::Kitsune.as_str(), "kitsune");
    assert_eq!(PurrbotImageChoices::Neko.as_str(), "neko");
    assert_eq!(PurrbotImageChoices::Okami.as_str(), "okami");
}

#[test]
fn http_cat_404_posts_literal_text() {
    assert_eq!(http_cat_url(404), "https://http.cat/404");
}

#[test]
fn http_dog_url_renders_code() {
    assert_eq!(http_dog_url(200), "https://http.dog/200");
}

#[test]
fn http_code_urls_handle_edge_codes() {
    assert_eq!(http_cat_url(0), "https://http.cat/0");
    assert_eq!(http_cat_url(-1), "https://http.cat/-1");
    assert_eq!(http_cat_url(i16::MAX), "https://http.cat/32767");
    assert_eq!(http_cat_url(i16::MIN), "https://http.cat/-32768");
}
