use wizscribe::ai::AIProvider;
use wizscribe::config::AppConfig;

#[test]
fn default_config_is_empty() {
    let config = AppConfig::default();
    assert!(config.ai_api_key.is_none());
    assert!(config.ai_provider.is_none());
    assert!(config.selected_audio_device.is_none());
    assert!(config.mic_device_index.is_none());
    assert!(config.system_device_index.is_none());
}

#[test]
fn migrates_legacy_device_selection() {
    let mut config = AppConfig::default();
    config.selected_audio_device = Some(3);
    let migrated = config.migrate_legacy_device();
    assert!(migrated);
    assert_eq!(config.mic_device_index, Some(3));
    assert_eq!(config.selected_audio_device, Some(3));
}

#[test]
fn migration_keeps_explicit_mic_choice() {
    let mut config = AppConfig::default();
    config.selected_audio_device = Some(3);
    config.mic_device_index = Some(7);
    let migrated = config.migrate_legacy_device();
    assert!(!migrated);
    assert_eq!(config.mic_device_index, Some(7));
}

#[test]
fn migration_noop_without_legacy_field() {
    let mut config = AppConfig::default();
    let migrated = config.migrate_legacy_device();
    assert!(!migrated);
    assert!(config.mic_device_index.is_none());
}

#[test]
fn set_ai_credentials_stores_both() {
    let mut config = AppConfig::default();
    config.mic_device_index = Some(1);
    config.set_ai_credentials("SECRET-REDACTED", "anthropic");
    assert_eq!(config.ai_api_key.as_deref(), Some("SECRET-REDACTED"));
    assert_eq!(config.ai_provider.as_deref(), Some("anthropic"));
    assert_eq!(config.mic_device_index, Some(1));
}

#[test]
fn provider_from_name_case_insensitive() {
    assert_eq!(AIProvider::from_name("anthropic"), AIProvider::Anthropic);
    assert_eq!(AIProvider::from_name("Anthropic"), AIProvider::Anthropic);
    assert_eq!(AIProvider::from_name("ANTHROPIC"), AIProvider::Anthropic);
    assert_eq!(AIProvider::from_name("openai"), AIProvider::OpenAI);
    assert_eq!(AIProvider::from_name("gpt"), AIProvider::OpenAI);
    assert_eq!(AIProvider::from_name(""), AIProvider::OpenAI);
}

#[test]
fn provider_default_is_openai() {
    assert_eq!(AIProvider::default(), AIProvider::OpenAI);
}
