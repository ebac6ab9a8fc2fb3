use deny_filter::build_error::build_error;
use deny_filter::deny_list::DenyList;
use deny_filter::deny_list_rs::DenyListRs;
use deny_filter::matcher::Matcher;
use deny_filter::msgpack::scan_msgpack;
use deny_filter::scan_any::{scan, scan_any};
use deny_filter::value::Value;
use rmpv::encode::write_value;

const DENY_WORDS: &[&str] = &[
    "abracadabra",
    "hocuspocus",
    "eureka",
    "jumbo",
    "voodoo",
    "juju",
    "mojo",
    "nirvana",
    "chakra",
    "voila",
];
const BLOCK_PROMPT: &str = "The morning sun rose over the distant mountains casting golden rays across the peaceful valley below. Birds sang their melodious songs from the branches of ancient oak trees that had witnessed countless seasons pass. A gentle breeze carried the sweet fragrance of wildflowers that bloomed in vibrant colors throughout the meadow. The river flowed steadily through the landscape creating a soothing rhythm that calmed the mind and spirit. Travelers walked along the winding path sharing stories of their journeys and adventures in faraway lands. The village marketplace bustled with activity as merchants displayed their finest goods and craftspeople demonstrated their skills. Children played games in the town square while elders sat on wooden benches exchanging wisdom and memories from years gone by. The baker prepared fresh loaves of bread filling the air with an irresistible aroma that drew hungry customers to his shop. Farmers brought their harvest from the fields offering fresh vegetables and fruits that reflected the bounty of the season. The blacksmith hammered metal into useful tools and decorative items that would serve the community for years to come. Musicians gathered in the evening to play traditional tunes that had been passed down through generations. Dancers moved gracefully to the rhythms creating patterns that told stories without words. The library housed countless volumes of knowledge collected over centuries providing resources for scholars and curious minds alike. Teachers guided students through lessons helping them discover new ideas and develop their talents. Artists painted landscapes and portraits capturing the beauty of nature and the essence of human expression. The town hall served as a gathering place where citizens discussed important matters and made decisions that affected everyone. Festivals celebrated the changing seasons bringing people together in joyful celebration and shared gratitude. The night sky revealed countless stars that sparkled like diamonds against the dark canvas above. Astronomers studied the celestial bodies seeking to understand the mysteries of the universe and our place within it. Philosophers pondered questions about existence meaning and the nature of reality itself. Historians recorded events ensuring that future generations would learn from the past and build upon the foundations laid by their ancestors. The community thrived through cooperation mutual respect and a shared commitment to creating a better world for all who called this place home. voila.";
const OK_PROMPT: &str = "The morning sun rose over the distant mountains casting golden rays across the peaceful valley below. Birds sang their melodious songs from the branches of ancient oak trees that had witnessed countless seasons pass. A gentle breeze carried the sweet fragrance of wildflowers that bloomed in vibrant colors throughout the meadow. The river flowed steadily through the landscape creating a soothing rhythm that calmed the mind and spirit. Travelers walked along the winding path sharing stories of their journeys and adventures in faraway lands. The village marketplace bustled with activity as merchants displayed their finest goods and craftspeople demonstrated their skills. Children played games in the town square while elders sat on wooden benches exchanging wisdom and memories from years gone by. The baker prepared fresh loaves of bread filling the air with an irresistible aroma that drew hungry customers to his shop. Farmers brought their harvest from the fields offering fresh vegetables and fruits that reflected the bounty of the season. The blacksmith hammered metal into useful tools and decorative items that would serve the community for years to come. Musicians gathered in the evening to play traditional tunes that had been passed down through generations. Dancers moved gracefully to the rhythms creating patterns that told stories without words. The library housed countless volumes of knowledge collected over centuries providing resources for scholars and curious minds alike. Teachers guided students through lessons helping them discover new ideas and develop their talents. Artists painted landscapes and portraits capturing the beauty of nature and the essence of human expression. The town hall served as a gathering place where citizens discussed important matters and made decisions that affected everyone. Festivals celebrated the changing seasons bringing people together in joyful celebration and shared gratitude. The night sky revealed countless stars that sparkled like diamonds against the dark canvas above. Astronomers studied the celestial bodies seeking to understand the mysteries of the universe and our place within it. Philosophers pondered questions about existence meaning and the nature of reality itself. Historians recorded events ensuring that future generations would learn from the past and build upon the foundations laid by their ancestors. The community thrived through cooperation mutual respect and a shared commitment to creating a better world for all who called this place home.";

fn common_test_logic<T: Matcher>(deny_list: &T) {
    assert!(deny_list.is_match("111 voila  222"));
    assert!(deny_list.is_match("111 chakra 222 voila"));
    assert!(!deny_list.is_match("111 222"));

    check_bad_msgpack(deny_list);

    check_msgpack_ok(deny_list);
    check_msgpack_blocked(deny_list);

    // test blocked prompts

    assert!(deny_list.is_match(BLOCK_PROMPT));

    let list_data: Vec<Value> = BLOCK_PROMPT
        .split(' ')
        .map(|w| Value::Str(w.to_string()))
        .collect();
    let list = Value::List(list_data);
    assert!(scan_any(deny_list, &list));

    let dict = vec![
        ("user".to_string(), Value::Str(BLOCK_PROMPT.to_string())),
        // should not scan non-string, improves test coverage
        ("id".to_string(), Value::Int(1)),
    ];

    assert!(scan(deny_list, &dict));
    assert!(scan_any(deny_list, &Value::Dict(dict)));

    // test non blocked prompts
    assert!(!deny_list.is_match(OK_PROMPT));

    let dict = vec![
        ("user".to_string(), Value::Str(OK_PROMPT.to_string())),
        // should not scan non-string, improves test coverage
        ("id".to_string(), Value::Int(1)),
    ];
    assert!(!scan(deny_list, &dict));
    assert!(!scan_any(deny_list, &Value::Dict(dict)));

    let list_data: Vec<Value> = OK_PROMPT
        .split(' ')
        .map(|w| Value::Str(w.to_string()))
        .collect();
    let list = Value::List(list_data);

    assert!(!scan_any(deny_list, &list));
}

fn check_bad_msgpack<T: Matcher>(deny_list: &T) {
    // Empty buffer - nothing encoded at the start
    let buf: &[u8] = &[];
    assert!(!scan_msgpack(deny_list, buf));

    // Truncated MessagePack: FixArray claiming 2 elements but only 1 byte of data
    // 0x92 = fixarray(2), followed by incomplete data
    let buf: &[u8] = &[0x92, 0x01]; // array of 2, but only 1 element present
    assert!(!scan_msgpack(deny_list, buf));
}

fn check_msgpack_ok<T: Matcher>(deny_list: &T) {
    let map = rmpv::Value::Map(vec![
        (rmpv::Value::from("id"), rmpv::Value::from("ok")),
        (rmpv::Value::from("user"), rmpv::Value::from(OK_PROMPT)),
    ]);
    let mut buf = Vec::new();
    write_value(&mut buf, &map).unwrap();

    assert!(!scan_msgpack(deny_list, buf.as_slice()));
}

fn check_msgpack_blocked<T: Matcher>(deny_list: &T) {
    let map = rmpv::Value::Map(vec![
        (rmpv::Value::from("id"), rmpv::Value::from("block")),
        (rmpv::Value::from("user"), rmpv::Value::from(BLOCK_PROMPT)),
    ]);
    let mut buf = Vec::new();
    write_value(&mut buf, &map).unwrap();

    assert!(scan_msgpack(deny_list, buf.as_slice()));
}

#[test]
fn test_deny_lists() {
    let words: Vec<String> = DENY_WORDS.iter().map(ToString::to_string).collect();
    let deny_list = DenyList::new(words.clone()).unwrap();
    let deny_list_rs = DenyListRs::new(words.clone()).unwrap();

    common_test_logic(&deny_list);
    common_test_logic(&deny_list_rs);

    let dummy_error = "mock error";
    let err = build_error(dummy_error.to_string());
    assert!(err.message().contains("mock error"));
}
