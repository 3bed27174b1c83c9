version: 1

project:
  name: shop
  framework: auto

build:
  image: auto-detected
  steps:
    - docker build -t ${PROJECT_NAME} .

deploy:
  type: docker-compose
  registry:
    url: ghcr.io/acme
    auth:
      username: acme
      token_file: .shipwright/token
  vps:
    host: 203.0.113.10
    user: deploy
    ssh_key: ~/.ssh/id_ed25519
    domain: shop.example.com
  replicas: 1
  health:
    http:
      path: /
      expect: 200
      timeout: 30s
  smoke_tests:
    - GET /health expect=200

rollback:
  enabled: true
  strategy: hybrid
  auto_rollback_on_test_failure: true
