use mobula::config::{Config, ConfigError};

#[test]
fn default_config_has_the_documented_values() {
    let c = Config::default();
    assert_eq!(c.width, 400);
    assert_eq!(c.height, 300);
    assert_eq!(c.samples, 8);
    assert_eq!(c.depth, 8);
    assert_eq!(Config::default_width(), 400);
    assert_eq!(Config::default_height(), 300);
    assert_eq!(Config::default_depth(), 8);
    assert_eq!(Config::default_samples(), 8);
}

#[test]
fn validate_names_the_first_zero_setting() {
    let ok = Config { width: 1, height: 1, depth: 1, samples: 1 };
    assert_eq!(ok.validate(), Ok(()));
    assert_eq!(Config { width: 0, ..ok }.validate(), Err(ConfigError::Width));
    assert_eq!(Config { height: 0, ..ok }.validate(), Err(ConfigError::Height));
    assert_eq!(Config { depth: 0, ..ok }.validate(), Err(ConfigError::Depth));
    assert_eq!(Config { samples: 0, ..ok }.validate(), Err(ConfigError::Samples));
    assert_eq!(Config { width: 0, height: 0, depth: 0, samples: 0 }.validate(), Err(ConfigError::Width));
    assert_eq!(Config { width: 3, height: 0, depth: 1, samples: 0 }.validate(), Err(ConfigError::Height));
}
