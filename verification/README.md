# server

The logic of the DashiShoyu inventory server (items kept in a tree, objects with images,
labels with visible ids and colours), as a library verified with Verus.

- `src/` is the verified library: checking and converting item CSV files, the rules of the
  item tree (parents, descendants, children, moves and removals), visible ids and label
  colours, image URLs, the request and response models, and the error answers.
- `tests/` runs the library on concrete values.
- `app/` is the program around it: the HTTP routes and handlers, the database, graph,
  search and image-store clients, and the two command-line tools that check and import a
  CSV file.
